//! Text building for error messages.

use vstd::prelude::*;

verus! {

/// Decimal digit of a value below ten.
pub open spec fn digit(value: nat) -> char {
    (value + 48) as char
}

/// Decimal digits of a value, most significant first, without leading zeros.
pub open spec fn spec_decimal(value: nat) -> Seq<char>
    decreases value,
{
    if value < 10 {
        seq![digit(value)]
    } else {
        spec_decimal(value / 10).push(digit(value % 10))
    }
}

/// Returns the one-digit text of a value below ten.
fn digit_text(value: u64) -> (r: &'static str)
    requires
        value < 10,
    ensures
        r@ == seq![digit(value as nat)],
{
    proof {
        reveal_strlit("0");
        reveal_strlit("1");
        reveal_strlit("2");
        reveal_strlit("3");
        reveal_strlit("4");
        reveal_strlit("5");
        reveal_strlit("6");
        reveal_strlit("7");
        reveal_strlit("8");
        reveal_strlit("9");
    }
    let r = if value == 0 {
        "0"
    } else if value == 1 {
        "1"
    } else if value == 2 {
        "2"
    } else if value == 3 {
        "3"
    } else if value == 4 {
        "4"
    } else if value == 5 {
        "5"
    } else if value == 6 {
        "6"
    } else if value == 7 {
        "7"
    } else if value == 8 {
        "8"
    } else {
        "9"
    };
    assert(r@ =~= seq![digit(value as nat)]);
    r
}

/// Returns the decimal text of a value.
pub fn decimal(value: u64) -> (r: String)
    ensures
        r@ == spec_decimal(value as nat),
    decreases value,
{
    if value < 10 {
        digit_text(value).to_owned()
    } else {
        let mut text = decimal(value / 10);
        text.append(digit_text(value % 10));
        assert(text@ =~= spec_decimal(value as nat));
        text
    }
}

/// Returns `prefix`, the decimal text of `value` and `suffix` in one string.
pub fn around_decimal(prefix: &str, value: u64, suffix: &str) -> (r: String)
    ensures
        r@ == prefix@ + spec_decimal(value as nat) + suffix@,
{
    let mut text = prefix.to_owned();
    text.append(decimal(value).as_str());
    text.append(suffix);
    text
}

/// Returns `prefix`, `inner` and `suffix` in one string.
pub fn around_text(prefix: &str, inner: &str, suffix: &str) -> (r: String)
    ensures
        r@ == prefix@ + inner@ + suffix@,
{
    let mut text = prefix.to_owned();
    text.append(inner);
    text.append(suffix);
    text
}

/// Returns `prefix` and the decimal text of `value` in one string.
pub fn after_decimal(prefix: &str, value: u64) -> (r: String)
    ensures
        r@ == prefix@ + spec_decimal(value as nat),
{
    after_text(prefix, decimal(value).as_str())
}

/// Returns `prefix` and `inner` in one string.
pub fn after_text(prefix: &str, inner: &str) -> (r: String)
    ensures
        r@ == prefix@ + inner@,
{
    let mut text = prefix.to_owned();
    text.append(inner);
    text
}

/// Number that decimal digits stand for, most significant first.
pub open spec fn read_number(text: Seq<char>) -> int
    decreases text.len(),
{
    if text.len() == 0 {
        0
    } else {
        read_number(text.drop_last()) * 10 + (text.last() as int - 48)
    }
}

/// A number is read back from its decimal text, which has digits only and no leading
/// zero.
pub proof fn law_decimal_text_reads_back(value: nat)
    ensures
        read_number(spec_decimal(value)) == value,
        spec_decimal(value).len() > 0,
        forall|i: int|
            0 <= i < spec_decimal(value).len() ==> '0' <= #[trigger] spec_decimal(value)[i] <= '9',
        spec_decimal(value).len() > 1 ==> spec_decimal(value)[0] != '0',
    decreases value,
{
    let text = spec_decimal(value);
    if value < 10 {
        assert(text.drop_last() =~= Seq::<char>::empty());
        assert(read_number(text.drop_last()) == 0);
        assert(text.last() as int == value + 48);
    } else {
        law_decimal_text_reads_back(value / 10);
        let front = spec_decimal(value / 10);
        assert(text.drop_last() =~= front);
        assert(text.last() as int == value % 10 + 48);
        assert forall|i: int| 0 <= i < text.len() implies '0' <= #[trigger] text[i] <= '9' by {
            if i < front.len() {
                assert(text[i] == front[i]);
            }
        }
        assert(text[0] == front[0]);
        if front.len() == 1 {
            assert(read_number(front.drop_last()) == 0) by {
                assert(front.drop_last() =~= Seq::<char>::empty());
            }
            assert(front[0] as int == value / 10 + 48);
        }
    }
}

} // verus!
