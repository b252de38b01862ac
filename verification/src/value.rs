//! The values that signals hold and that properties carry.

use vstd::prelude::*;

verus! {

/// A value of one of the kit's types.
#[derive(Debug, PartialEq, Eq)]
pub enum Value {
    Int(i64),
    Flag(bool),
    Text(String),
}

/// What a `Value` is, with a text as its characters.
pub enum ValueView {
    Int(i64),
    Flag(bool),
    Text(Seq<char>),
}

/// The character of a decimal digit.
pub open spec fn digit_char(d: int) -> char {
    if d == 0 {
        '0'
    } else if d == 1 {
        '1'
    } else if d == 2 {
        '2'
    } else if d == 3 {
        '3'
    } else if d == 4 {
        '4'
    } else if d == 5 {
        '5'
    } else if d == 6 {
        '6'
    } else if d == 7 {
        '7'
    } else if d == 8 {
        '8'
    } else {
        '9'
    }
}

/// The decimal digits of a natural number, without leading zeros.
pub open spec fn digits_of(n: nat) -> Seq<char>
    decreases n,
{
    if n < 10 {
        seq![digit_char(n as int)]
    } else {
        digits_of(n / 10).push(digit_char((n % 10) as int))
    }
}

/// An integer in decimal notation, with a minus sign where it is negative.
pub open spec fn decimal(n: int) -> Seq<char> {
    if n < 0 {
        seq!['-'] + digits_of((-n) as nat)
    } else {
        digits_of(n as nat)
    }
}

impl ValueView {
    /// The value as text content shows it.
    pub open spec fn text(self) -> Seq<char> {
        match self {
            ValueView::Int(n) => decimal(n as int),
            ValueView::Flag(b) => if b {
                "true"@
            } else {
                "false"@
            },
            ValueView::Text(t) => t,
        }
    }
}

impl View for Value {
    type V = ValueView;

    open spec fn view(&self) -> ValueView {
        match self {
            Value::Int(n) => ValueView::Int(*n),
            Value::Flag(b) => ValueView::Flag(*b),
            Value::Text(t) => ValueView::Text(t@),
        }
    }
}

impl Value {
    /// Whether two values are of the same type and equal.
    pub fn same(&self, other: &Value) -> (b: bool)
        ensures
            b == (self@ == other@),
    {
        match (self, other) {
            (Value::Int(a), Value::Int(b)) => *a == *b,
            (Value::Flag(a), Value::Flag(b)) => *a == *b,
            (Value::Text(a), Value::Text(b)) => *a == *b,
            _ => false,
        }
    }

    /// A copy of the value.
    pub fn duplicate(&self) -> (v: Value)
        ensures
            v@ == self@,
    {
        match self {
            Value::Int(n) => Value::Int(*n),
            Value::Flag(b) => Value::Flag(*b),
            Value::Text(t) => Value::Text(t.clone()),
        }
    }
}

fn digit_text(d: u64) -> (s: &'static str)
    requires
        d < 10,
    ensures
        s@ == seq![digit_char(d as int)],
{
    proof {
        reveal_strlit("0");
        reveal_strlit("1");
        reveal_strlit("2");
        reveal_strlit("3");
        reveal_strlit("4");
        reveal_strlit("5");
        reveal_strlit("6");
        reveal_strlit("7");
        reveal_strlit("8");
        reveal_strlit("9");
    }
    let s = if d == 0 {
        "0"
    } else if d == 1 {
        "1"
    } else if d == 2 {
        "2"
    } else if d == 3 {
        "3"
    } else if d == 4 {
        "4"
    } else if d == 5 {
        "5"
    } else if d == 6 {
        "6"
    } else if d == 7 {
        "7"
    } else if d == 8 {
        "8"
    } else {
        "9"
    };
    assert(s@ =~= seq![digit_char(d as int)]);
    s
}

fn append_digits(out: &mut String, n: u64)
    ensures
        final(out)@ == old(out)@ + digits_of(n as nat),
    decreases n,
{
    if n >= 10 {
        append_digits(out, n / 10);
    }
    out.append(digit_text(n % 10));
    proof {
        if n >= 10 {
            assert(out@ =~= old(out)@ + digits_of(n as nat));
        } else {
            assert(out@ =~= old(out)@ + digits_of(n as nat));
        }
    }
}

impl Value {
    /// The value as text content shows it: an integer in decimal notation,
    /// a flag as `true` or `false`, a text as it is.
    pub fn to_text(&self) -> (text: String)
        ensures
            text@ == self@.text(),
    {
        match self {
            Value::Int(n) => {
                let mut out = String::new();
                if *n < 0 {
                    proof {
                        reveal_strlit("-");
                    }
                    out.append("-");
                    let magnitude: u64 = if *n == i64::MIN {
                        9223372036854775808u64
                    } else {
                        (-*n) as u64
                    };
                    append_digits(&mut out, magnitude);
                    proof {
                        assert(out@ =~= decimal(*n as int));
                    }
                } else {
                    append_digits(&mut out, *n as u64);
                    proof {
                        assert(out@ =~= decimal(*n as int));
                    }
                }
                out
            },
            Value::Flag(b) => {
                if *b {
                    "true".to_owned()
                } else {
                    "false".to_owned()
                }
            },
            Value::Text(t) => t.clone(),
        }
    }
}

impl Clone for Value {
    fn clone(&self) -> (v: Value)
        ensures
            v@ == self@,
    {
        self.duplicate()
    }
}

} // verus!
