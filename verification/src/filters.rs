//! The filter contract and the built-in filter set.
//!
//! A filter is a pure function from an input [`Value`] and an ordered argument
//! list to a new [`Value`] or a classified [`FilterError`]. Every rejection is
//! one of exactly three kinds; no filter aborts, and none signals invalid
//! input through a non-error path.

use crate::single::add_bits;
use crate::single::ceil_bits;
use crate::single::div_bits;
use crate::single::floor_bits;
use crate::single::from_usize_bits;
use crate::single::mul_bits;
use crate::single::round_bits;
use crate::single::single_add;
use crate::single::single_ceil;
use crate::single::single_div;
use crate::single::single_floor;
use crate::single::single_mul;
use crate::single::single_of_int;
use crate::single::single_round;
use crate::single::single_sub;
use crate::single::sub_bits;
use crate::value::Value;
use vstd::prelude::*;
use vstd::string::StrSliceExecFns;

verus! {

/// Why a filter rejected its input or arguments. Every filter failure is one
/// of exactly these three kinds, each carrying a human-readable message.
#[derive(Debug, PartialEq)]
pub enum FilterError {
    /// The input's runtime variant does not match what the filter requires.
    InvalidType(String),
    /// The number of supplied arguments does not match what the filter requires.
    InvalidArgumentCount(String),
    /// The argument at the given 0-based position has the wrong variant or value.
    InvalidArgument(u16, String),
}

/// The mathematical shape of a [`FilterError`]: the same three kinds, with
/// messages as character sequences.
pub enum FilterErrorView {
    Type(Seq<char>),
    Count(Seq<char>),
    Argument(u16, Seq<char>),
}

impl View for FilterError {
    type V = FilterErrorView;

    open spec fn view(&self) -> FilterErrorView {
        match self {
            FilterError::InvalidType(m) => FilterErrorView::Type(m@),
            FilterError::InvalidArgumentCount(m) => FilterErrorView::Count(m@),
            FilterError::InvalidArgument(p, m) => FilterErrorView::Argument(*p, m@),
        }
    }
}

impl FilterError {
    /// An `InvalidType` rejection carrying `s` as its message, ready to return.
    pub fn invalid_type<T>(s: &str) -> (r: Result<T, FilterError>)
        ensures
            r matches Err(e) && e@ == FilterErrorView::Type(s@),
    {
        Err(FilterError::InvalidType(s.to_owned()))
    }

    /// The message this error carries, whatever its kind.
    pub fn description(&self) -> (r: &str)
        ensures
            match self@ {
                FilterErrorView::Type(m) => r@ == m,
                FilterErrorView::Count(m) => r@ == m,
                FilterErrorView::Argument(_, m) => r@ == m,
            },
    {
        match self {
            FilterError::InvalidType(m) => m.as_str(),
            FilterError::InvalidArgumentCount(m) => m.as_str(),
            FilterError::InvalidArgument(_, m) => m.as_str(),
        }
    }
}

/// The character standing for the decimal digit `d`.
pub open spec fn digit_char(d: nat) -> char {
    if d == 0 {
        '0'
    } else if d == 1 {
        '1'
    } else if d == 2 {
        '2'
    } else if d == 3 {
        '3'
    } else if d == 4 {
        '4'
    } else if d == 5 {
        '5'
    } else if d == 6 {
        '6'
    } else if d == 7 {
        '7'
    } else if d == 8 {
        '8'
    } else {
        '9'
    }
}

/// The decimal digits of `n`, most significant first, with no leading zero
/// except for zero itself.
pub open spec fn dec_rep(n: nat) -> Seq<char>
    decreases n,
{
    if n < 10 {
        seq![digit_char(n)]
    } else {
        dec_rep(n / 10) + seq![digit_char(n % 10)]
    }
}

/// The one-character string of a single decimal digit.
fn digit_str(d: u64) -> (r: &'static str)
    requires
        d < 10,
    ensures
        r@ == seq![digit_char(d as nat)],
{
    let r: &'static str = match d {
        0 => "0",
        1 => "1",
        2 => "2",
        3 => "3",
        4 => "4",
        5 => "5",
        6 => "6",
        7 => "7",
        8 => "8",
        _ => "9",
    };
    proof {
        reveal_strlit("0");
        reveal_strlit("1");
        reveal_strlit("2");
        reveal_strlit("3");
        reveal_strlit("4");
        reveal_strlit("5");
        reveal_strlit("6");
        reveal_strlit("7");
        reveal_strlit("8");
        reveal_strlit("9");
        assert(r@ =~= seq![digit_char(d as nat)]);
    }
    r
}

/// The decimal rendering of `n`.
fn decimal_string(n: u64) -> (r: String)
    ensures
        r@ == dec_rep(n as nat),
    decreases n,
{
    if n < 10 {
        digit_str(n).to_owned()
    } else {
        let mut s = decimal_string(n / 10);
        s.append(digit_str(n % 10));
        s
    }
}

/// The full human-readable rendering an error owes: its kind, then its
/// message, with an argument error naming its 0-based position in decimal.
pub open spec fn message_of(e: FilterErrorView) -> Seq<char> {
    match e {
        FilterErrorView::Type(m) => "Invalid type : "@ + m,
        FilterErrorView::Count(m) => "Invalid number of arguments : "@ + m,
        FilterErrorView::Argument(p, m) => "Invalid argument given at position "@ + dec_rep(
            p as nat,
        ) + " : "@ + m,
    }
}

impl FilterError {
    /// The full human-readable rendering of this error: its kind and message.
    pub fn message(&self) -> (r: String)
        ensures
            r@ == message_of(self@),
    {
        match self {
            FilterError::InvalidType(m) => {
                let mut s = "Invalid type : ".to_owned();
                s.append(m.as_str());
                s
            },
            FilterError::InvalidArgumentCount(m) => {
                let mut s = "Invalid number of arguments : ".to_owned();
                s.append(m.as_str());
                s
            },
            FilterError::InvalidArgument(p, m) => {
                let mut s = "Invalid argument given at position ".to_owned();
                let pos = decimal_string(*p as u64);
                s.append(pos.as_str());
                s.append(" : ");
                s.append(m.as_str());
                proof {
                    assert(s@ =~= message_of(self@));
                }
                s
            },
        }
    }
}

/// What a filter returns: a new value, or a classified rejection.
pub type FilterResult = Result<Value, FilterError>;

/// The payload a successful filter call owes. The built-in filters only ever
/// produce numbers and strings, so both are pinned here as plain values.
pub enum ValueOut {
    Num(u32),
    Str(Seq<char>),
}

/// The outcome a filter call owes, stated over mathematical values.
pub type FilterOut = Result<ValueOut, FilterErrorView>;

/// The executable result `r` carries exactly the mathematical outcome `o`.
pub open spec fn filter_returns(r: FilterResult, o: FilterOut) -> bool {
    match o {
        Ok(ValueOut::Num(b)) => r matches Ok(Value::Num(rb)) && rb == b,
        Ok(ValueOut::Str(s)) => r matches Ok(Value::Str(rs)) && rs@ == s,
        Err(e) => r matches Err(re) && re@ == e,
    }
}

/// The outcome `size` owes: the length of a string (in characters), array, or
/// object, as a binary32 number; `InvalidType` on every other variant.
pub open spec fn size_spec(input: Value) -> FilterOut {
    match input {
        Value::Str(x) => Ok(ValueOut::Num(single_of_int(x@.len() as int))),
        Value::Array(x) => Ok(ValueOut::Num(single_of_int(x@.len() as int))),
        Value::Object(x) => Ok(ValueOut::Num(single_of_int(x@.len() as int))),
        _ => Err(FilterErrorView::Type("String, Array or Object expected"@)),
    }
}

/// The length of a string, array, or object, as a number; the argument list is ignored.
pub fn size(input: &Value, _args: &[Value]) -> (r: FilterResult)
    ensures
        filter_returns(r, size_spec(*input)),
{
    match input {
        Value::Str(x) => Ok(Value::Num(from_usize_bits(x.as_str().unicode_len()))),
        Value::Array(x) => Ok(Value::Num(from_usize_bits(x.len()))),
        Value::Object(x) => Ok(Value::Num(from_usize_bits(x.len()))),
        _ => Err(FilterError::InvalidType("String, Array or Object expected".to_owned())),
    }
}

/// The uppercase mapping of a character sequence, as `str::to_uppercase`
/// performs it.
pub uninterp spec fn upper_of(s: Seq<char>) -> Seq<char>;

/// Relies on `str::to_uppercase`: the Unicode uppercase equivalent of `s`, a
/// function of the characters alone (no locale is consulted); an empty string
/// stays empty.
#[verifier::external_body]
fn uppercase(s: &str) -> (r: String)
    ensures
        r@ == upper_of(s@),
        s@.len() == 0 ==> r@.len() == 0,
{
    s.to_uppercase()
}

/// The outcome `upcase` owes: the uppercased string, or `InvalidType` on every
/// other variant.
pub open spec fn upcase_spec(input: Value) -> FilterOut {
    match input {
        Value::Str(x) => Ok(ValueOut::Str(upper_of(x@))),
        _ => Err(FilterErrorView::Type("String expected"@)),
    }
}

/// A string uppercased; the argument list is ignored.
pub fn upcase(input: &Value, _args: &[Value]) -> (r: FilterResult)
    ensures
        filter_returns(r, upcase_spec(*input)),
{
    match input {
        Value::Str(x) => Ok(Value::Str(uppercase(x.as_str()))),
        _ => Err(FilterError::InvalidType("String expected".to_owned())),
    }
}

/// The numeric payload of the first argument, if the argument list starts
/// with a number. Only the first argument matters: the arithmetic filters
/// tolerate extra arguments.
pub open spec fn first_num_arg(args: Seq<Value>) -> Option<u32> {
    if args.len() >= 1 && args[0] is Num {
        Some(args[0]->Num_0)
    } else {
        None
    }
}

/// The outcome `minus` owes: input minus the first argument, both binary32
/// numbers; `InvalidType` on a non-numeric input, `InvalidArgument` at
/// position 0 on a missing or non-numeric first argument.
pub open spec fn minus_spec(input: Value, args: Seq<Value>) -> FilterOut {
    if !(input is Num) {
        Err(FilterErrorView::Type("Num expected"@))
    } else {
        match first_num_arg(args) {
            Some(x) => Ok(ValueOut::Num(single_sub(input->Num_0, x))),
            None => Err(FilterErrorView::Argument(0, "Num expected"@)),
        }
    }
}

/// A number minus the first argument.
pub fn minus(input: &Value, args: &[Value]) -> (r: FilterResult)
    ensures
        filter_returns(r, minus_spec(*input, args@)),
{
    let num = match input {
        Value::Num(n) => *n,
        _ => { return Err(FilterError::InvalidType("Num expected".to_owned())) },
    };
    match args.first() {
        Some(Value::Num(x)) => Ok(Value::Num(sub_bits(num, *x))),
        _ => Err(FilterError::InvalidArgument(0, "Num expected".to_owned())),
    }
}

/// The outcome `plus` owes: input plus the first argument; the same failure
/// shape as `minus`.
pub open spec fn plus_spec(input: Value, args: Seq<Value>) -> FilterOut {
    if !(input is Num) {
        Err(FilterErrorView::Type("Num expected"@))
    } else {
        match first_num_arg(args) {
            Some(x) => Ok(ValueOut::Num(single_add(input->Num_0, x))),
            None => Err(FilterErrorView::Argument(0, "Num expected"@)),
        }
    }
}

/// A number plus the first argument.
pub fn plus(input: &Value, args: &[Value]) -> (r: FilterResult)
    ensures
        filter_returns(r, plus_spec(*input, args@)),
{
    let num = match input {
        Value::Num(n) => *n,
        _ => { return Err(FilterError::InvalidType("Num expected".to_owned())) },
    };
    match args.first() {
        Some(Value::Num(x)) => Ok(Value::Num(add_bits(num, *x))),
        _ => Err(FilterError::InvalidArgument(0, "Num expected".to_owned())),
    }
}

/// The outcome `times` owes: input times the first argument; the same failure
/// shape as `minus`.
pub open spec fn times_spec(input: Value, args: Seq<Value>) -> FilterOut {
    if !(input is Num) {
        Err(FilterErrorView::Type("Num expected"@))
    } else {
        match first_num_arg(args) {
            Some(x) => Ok(ValueOut::Num(single_mul(input->Num_0, x))),
            None => Err(FilterErrorView::Argument(0, "Num expected"@)),
        }
    }
}

/// A number times the first argument.
pub fn times(input: &Value, args: &[Value]) -> (r: FilterResult)
    ensures
        filter_returns(r, times_spec(*input, args@)),
{
    let num = match input {
        Value::Num(n) => *n,
        _ => { return Err(FilterError::InvalidType("Num expected".to_owned())) },
    };
    match args.first() {
        Some(Value::Num(x)) => Ok(Value::Num(mul_bits(num, *x))),
        _ => Err(FilterError::InvalidArgument(0, "Num expected".to_owned())),
    }
}

/// The outcome `divided_by` owes: the floor of input divided by the first
/// argument (integer-style division layered on binary32 storage, by design);
/// the same failure shape as `minus`.
pub open spec fn divided_by_spec(input: Value, args: Seq<Value>) -> FilterOut {
    if !(input is Num) {
        Err(FilterErrorView::Type("Num expected"@))
    } else {
        match first_num_arg(args) {
            Some(x) => Ok(ValueOut::Num(single_floor(single_div(input->Num_0, x)))),
            None => Err(FilterErrorView::Argument(0, "Num expected"@)),
        }
    }
}

/// The floored quotient of a number and the first argument.
pub fn divided_by(input: &Value, args: &[Value]) -> (r: FilterResult)
    ensures
        filter_returns(r, divided_by_spec(*input, args@)),
{
    let num = match input {
        Value::Num(n) => *n,
        _ => { return Err(FilterError::InvalidType("Num expected".to_owned())) },
    };
    match args.first() {
        Some(Value::Num(x)) => Ok(Value::Num(floor_bits(div_bits(num, *x)))),
        _ => Err(FilterError::InvalidArgument(0, "Num expected".to_owned())),
    }
}

/// The outcome `floor` owes: the input rounded toward negative infinity;
/// `InvalidType` on a non-numeric input.
pub open spec fn floor_spec(input: Value) -> FilterOut {
    match input {
        Value::Num(n) => Ok(ValueOut::Num(single_floor(n))),
        _ => Err(FilterErrorView::Type("Num expected"@)),
    }
}

/// A number rounded down to an integral value; the argument list is ignored.
pub fn floor(input: &Value, _args: &[Value]) -> (r: FilterResult)
    ensures
        filter_returns(r, floor_spec(*input)),
{
    match input {
        Value::Num(n) => Ok(Value::Num(floor_bits(*n))),
        _ => Err(FilterError::InvalidType("Num expected".to_owned())),
    }
}

/// The outcome `ceil` owes: the input rounded toward positive infinity;
/// `InvalidType` on a non-numeric input.
pub open spec fn ceil_spec(input: Value) -> FilterOut {
    match input {
        Value::Num(n) => Ok(ValueOut::Num(single_ceil(n))),
        _ => Err(FilterErrorView::Type("Num expected"@)),
    }
}

/// A number rounded up to an integral value; the argument list is ignored.
pub fn ceil(input: &Value, _args: &[Value]) -> (r: FilterResult)
    ensures
        filter_returns(r, ceil_spec(*input)),
{
    match input {
        Value::Num(n) => Ok(Value::Num(ceil_bits(*n))),
        _ => Err(FilterError::InvalidType("Num expected".to_owned())),
    }
}

/// The outcome `round` owes: the input rounded to the nearest integral value,
/// ties away from zero; `InvalidType` on a non-numeric input.
pub open spec fn round_spec(input: Value) -> FilterOut {
    match input {
        Value::Num(n) => Ok(ValueOut::Num(single_round(n))),
        _ => Err(FilterErrorView::Type("Num expected"@)),
    }
}

/// A number rounded to the nearest integral value; the argument list is ignored.
pub fn round(input: &Value, _args: &[Value]) -> (r: FilterResult)
    ensures
        filter_returns(r, round_spec(*input)),
{
    match input {
        Value::Num(n) => Ok(Value::Num(round_bits(*n))),
        _ => Err(FilterError::InvalidType("Num expected".to_owned())),
    }
}

/// The character sequence `str::replace` produces: `s` with every occurrence
/// of `from`, scanned left to right and non-overlapping, replaced by `to`.
pub uninterp spec fn replaced(s: Seq<char>, from: Seq<char>, to: Seq<char>) -> Seq<char>;

/// Relies on `str::replace`: every non-overlapping occurrence of `from` in
/// `s`, found left to right, is replaced by `to`; the result is a function of
/// the three character sequences alone.
#[verifier::external_body]
fn replace_all(s: &str, from: &str, to: &str) -> (r: String)
    ensures
        r@ == replaced(s@, from@, to@),
{
    s.replace(from, to)
}

/// The outcome `replace` owes. The argument count is checked first: anything
/// but exactly two arguments is `InvalidArgumentCount`, whatever the input.
/// Then a non-string input is `InvalidType`, and a non-string argument is
/// `InvalidArgument` at its position, the first offending position winning.
pub open spec fn replace_spec(input: Value, args: Seq<Value>) -> FilterOut {
    if args.len() != 2 {
        Err(FilterErrorView::Count("expected 2, "@ + dec_rep(args.len()) + " given"@))
    } else {
        match input {
            Value::Str(x) => {
                if !(args[0] is Str) {
                    Err(FilterErrorView::Argument(0, "Str expected"@))
                } else if !(args[1] is Str) {
                    Err(FilterErrorView::Argument(1, "Str expected"@))
                } else {
                    Ok(ValueOut::Str(replaced(x@, args[0]->Str_0@, args[1]->Str_0@)))
                }
            },
            _ => Err(FilterErrorView::Type("String expected"@)),
        }
    }
}

/// A string with every occurrence of the first argument replaced by the
/// second; the only built-in filter that enforces its argument count.
pub fn replace(input: &Value, args: &[Value]) -> (r: FilterResult)
    ensures
        filter_returns(r, replace_spec(*input, args@)),
{
    if args.len() != 2 {
        let mut msg = "expected 2, ".to_owned();
        msg.append(decimal_string(args.len() as u64).as_str());
        msg.append(" given");
        return Err(FilterError::InvalidArgumentCount(msg));
    }
    match input {
        Value::Str(x) => {
            let arg1 = match &args[0] {
                Value::Str(a) => a,
                _ => { return Err(FilterError::InvalidArgument(0, "Str expected".to_owned())) },
            };
            let arg2 = match &args[1] {
                Value::Str(a) => a,
                _ => { return Err(FilterError::InvalidArgument(1, "Str expected".to_owned())) },
            };
            Ok(Value::Str(replace_all(x.as_str(), arg1.as_str(), arg2.as_str())))
        },
        _ => Err(FilterError::InvalidType("String expected".to_owned())),
    }
}

/// A named value-transforming operation: the closed set of built-in filters,
/// registrable into a render context under any name.
#[derive(Debug, Clone, Copy, PartialEq, Eq, Structural)]
pub enum Filter {
    Size,
    Upcase,
    Minus,
    Plus,
    Times,
    DividedBy,
    Floor,
    Ceil,
    Round,
    Replace,
}

/// The outcome each built-in filter owes on the given input and arguments.
pub open spec fn filter_spec(f: Filter, input: Value, args: Seq<Value>) -> FilterOut {
    match f {
        Filter::Size => size_spec(input),
        Filter::Upcase => upcase_spec(input),
        Filter::Minus => minus_spec(input, args),
        Filter::Plus => plus_spec(input, args),
        Filter::Times => times_spec(input, args),
        Filter::DividedBy => divided_by_spec(input, args),
        Filter::Floor => floor_spec(input),
        Filter::Ceil => ceil_spec(input),
        Filter::Round => round_spec(input),
        Filter::Replace => replace_spec(input, args),
    }
}

impl Filter {
    /// Apply this filter to `input` with the ordered argument list `args`.
    pub fn apply(&self, input: &Value, args: &[Value]) -> (r: FilterResult)
        ensures
            filter_returns(r, filter_spec(*self, *input, args@)),
    {
        match self {
            Filter::Size => size(input, args),
            Filter::Upcase => upcase(input, args),
            Filter::Minus => minus(input, args),
            Filter::Plus => plus(input, args),
            Filter::Times => times(input, args),
            Filter::DividedBy => divided_by(input, args),
            Filter::Floor => floor(input, args),
            Filter::Ceil => ceil(input, args),
            Filter::Round => round(input, args),
            Filter::Replace => replace(input, args),
        }
    }
}

/// The input variants a filter accepts without an `InvalidType` rejection.
pub open spec fn accepts_input(f: Filter, input: Value) -> bool {
    match f {
        Filter::Size => input is Str || input is Array || input is Object,
        Filter::Upcase => input is Str,
        Filter::Replace => input is Str,
        _ => input is Num,
    }
}

/// Every filter, handed an input of the wrong variant, answers `InvalidType`
/// and nothing else. `replace` checks its argument count before its input, so
/// for it the claim holds once the count check passes; every other filter
/// makes the claim for an arbitrary argument list.
pub proof fn lemma_wrong_input_yields_invalid_type(f: Filter, input: Value, args: Seq<Value>)
    requires
        !accepts_input(f, input),
        f is Replace ==> args.len() == 2,
    ensures
        filter_spec(f, input, args) matches Err(e) && e is Type,
{
}

} // verus!
