use vstd::prelude::*;
use vstd::string::StrSliceExecFns;
use vstd::string::StringExecFns;

verus! {

/// Where a scanner stands after reading a prefix of a JSON number.
pub enum ScanState {
    Start,
    Minus,
    Zero,
    IntDigits,
    Dot,
    FracDigits,
    Exp,
    ExpSign,
    ExpDigits,
    Reject,
}

pub open spec fn is_digit(c: char) -> bool {
    '0' <= c && c <= '9'
}

/// One step of the JSON number grammar
/// `-? (0 | [1-9][0-9]*) (. [0-9]+)? ([eE] [+-]? [0-9]+)?`.
pub open spec fn scan_step(s: ScanState, c: char) -> ScanState {
    match s {
        ScanState::Start => if c == '-' {
            ScanState::Minus
        } else if c == '0' {
            ScanState::Zero
        } else if is_digit(c) {
            ScanState::IntDigits
        } else {
            ScanState::Reject
        },
        ScanState::Minus => if c == '0' {
            ScanState::Zero
        } else if is_digit(c) {
            ScanState::IntDigits
        } else {
            ScanState::Reject
        },
        ScanState::Zero => if c == '.' {
            ScanState::Dot
        } else if c == 'e' || c == 'E' {
            ScanState::Exp
        } else {
            ScanState::Reject
        },
        ScanState::IntDigits => if is_digit(c) {
            ScanState::IntDigits
        } else if c == '.' {
            ScanState::Dot
        } else if c == 'e' || c == 'E' {
            ScanState::Exp
        } else {
            ScanState::Reject
        },
        ScanState::Dot => if is_digit(c) {
            ScanState::FracDigits
        } else {
            ScanState::Reject
        },
        ScanState::FracDigits => if is_digit(c) {
            ScanState::FracDigits
        } else if c == 'e' || c == 'E' {
            ScanState::Exp
        } else {
            ScanState::Reject
        },
        ScanState::Exp => if c == '+' || c == '-' {
            ScanState::ExpSign
        } else if is_digit(c) {
            ScanState::ExpDigits
        } else {
            ScanState::Reject
        },
        ScanState::ExpSign | ScanState::ExpDigits => if is_digit(c) {
            ScanState::ExpDigits
        } else {
            ScanState::Reject
        },
        ScanState::Reject => ScanState::Reject,
    }
}

/// The state reached after reading all of `s`.
pub open spec fn scan(s: Seq<char>) -> ScanState
    decreases s.len(),
{
    if s.len() == 0 {
        ScanState::Start
    } else {
        scan_step(scan(s.drop_last()), s.last())
    }
}

/// `s` is a complete JSON number literal.
pub open spec fn is_number_text(s: Seq<char>) -> bool {
    match scan(s) {
        ScanState::Zero | ScanState::IntDigits | ScanState::FracDigits | ScanState::ExpDigits => true,
        _ => false,
    }
}

fn step(s: ScanState, c: char) -> (r: ScanState)
    ensures
        r == scan_step(s, c),
{
    let digit = '0' <= c && c <= '9';
    let exp = c == 'e' || c == 'E';
    match s {
        ScanState::Start => if c == '-' {
            ScanState::Minus
        } else if c == '0' {
            ScanState::Zero
        } else if digit {
            ScanState::IntDigits
        } else {
            ScanState::Reject
        },
        ScanState::Minus => if c == '0' {
            ScanState::Zero
        } else if digit {
            ScanState::IntDigits
        } else {
            ScanState::Reject
        },
        ScanState::Zero => if c == '.' {
            ScanState::Dot
        } else if exp {
            ScanState::Exp
        } else {
            ScanState::Reject
        },
        ScanState::IntDigits => if digit {
            ScanState::IntDigits
        } else if c == '.' {
            ScanState::Dot
        } else if exp {
            ScanState::Exp
        } else {
            ScanState::Reject
        },
        ScanState::Dot => if digit {
            ScanState::FracDigits
        } else {
            ScanState::Reject
        },
        ScanState::FracDigits => if digit {
            ScanState::FracDigits
        } else if exp {
            ScanState::Exp
        } else {
            ScanState::Reject
        },
        ScanState::Exp => if c == '+' || c == '-' {
            ScanState::ExpSign
        } else if digit {
            ScanState::ExpDigits
        } else {
            ScanState::Reject
        },
        ScanState::ExpSign | ScanState::ExpDigits => if digit {
            ScanState::ExpDigits
        } else {
            ScanState::Reject
        },
        ScanState::Reject => ScanState::Reject,
    }
}

/// A numeric bound, held as the text of a JSON number literal.
pub struct Number {
    text: String,
}

impl View for Number {
    type V = Seq<char>;

    closed spec fn view(&self) -> Seq<char> {
        self.text@
    }
}

impl Number {
    pub open spec fn wf(&self) -> bool {
        is_number_text(self@)
    }

    /// Reads a JSON number literal; `None` where `text` is not one.
    pub fn parse(text: &str) -> (r: Option<Number>)
        ensures
            r is Some <==> is_number_text(text@),
            r matches Some(n) ==> n@ == text@ && n.wf(),
    {
        let n = text.unicode_len();
        let mut state = ScanState::Start;
        let mut i: usize = 0;
        while i < n
            invariant
                n == text@.len(),
                i <= n,
                state == scan(text@.take(i as int)),
            decreases n - i,
        {
            let c = text.get_char(i);
            assert(text@.take(i + 1).drop_last() =~= text@.take(i as int));
            state = step(state, c);
            i = i + 1;
        }
        assert(text@.take(n as int) =~= text@);
        match state {
            ScanState::Zero | ScanState::IntDigits | ScanState::FracDigits | ScanState::ExpDigits => {
                Some(Number { text: String::from_str(text) })
            },
            _ => None,
        }
    }

    /// The literal's text.
    pub fn as_text(&self) -> (r: &str)
        ensures
            r@ == self@,
    {
        self.text.as_str()
    }
}

} // verus!
