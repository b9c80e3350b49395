//! Small operations on strings, stated over sequences of characters.

use vstd::prelude::*;
use vstd::string::StringExecFns;
use vstd::string::StrSliceExecFns;

verus! {

/// The character sequences of a sequence of strings.
pub open spec fn strings(items: Seq<String>) -> Seq<Seq<char>> {
    Seq::new(items.len(), |i: int| items[i]@)
}

/// `parts` written one after the other with `separator` between neighbours.
pub open spec fn joined(parts: Seq<Seq<char>>, separator: Seq<char>) -> Seq<char>
    decreases parts.len(),
{
    if parts.len() == 0 {
        Seq::empty()
    } else if parts.len() == 1 {
        parts[0]
    } else {
        joined(parts.drop_last(), separator) + separator + parts.last()
    }
}

/// `unit` written `count` times.
pub open spec fn repeated(unit: Seq<char>, count: nat) -> Seq<char>
    decreases count,
{
    if count == 0 {
        Seq::empty()
    } else {
        repeated(unit, (count - 1) as nat) + unit
    }
}

/// The digit of `value`, for `value` below ten.
pub open spec fn digit(value: nat) -> char {
    "0123456789"@[value as int]
}

/// `value` in decimal, without leading zeros.
pub open spec fn decimal(value: nat) -> Seq<char>
    decreases value,
{
    if value < 10 {
        seq![digit(value)]
    } else {
        decimal(value / 10).push(digit(value % 10))
    }
}

/// Compares two string slices with `str`'s own `==`, which holds exactly when
/// both are the same sequence of characters.
#[verifier::external_body]
pub(crate) fn same_text(left: &str, right: &str) -> (same: bool)
    ensures
        same == (left@ == right@),
{
    left == right
}

/// Whether two paths have the same segments in the same order.
pub fn same_path(left: &Vec<String>, right: &Vec<String>) -> (same: bool)
    ensures
        same == (strings(left@) == strings(right@)),
{
    if left.len() != right.len() {
        assert(strings(left@).len() != strings(right@).len());
        return false;
    }
    let mut i: usize = 0;
    while i < left.len()
        invariant
            i <= left.len(),
            left.len() == right.len(),
            forall|j: int| 0 <= j < i ==> left@[j]@ == right@[j]@,
        decreases left.len() - i,
    {
        if !same_text(left[i].as_str(), right[i].as_str()) {
            assert(strings(left@)[i as int] != strings(right@)[i as int]);
            return false;
        }
        i += 1;
    }
    assert(strings(left@) =~= strings(right@));
    true
}

/// `parts` joined by `separator`.
pub fn join(parts: &Vec<String>, separator: &str) -> (text: String)
    ensures
        text@ == joined(strings(parts@), separator@),
{
    let mut text = String::new();
    let mut i: usize = 0;
    while i < parts.len()
        invariant
            i <= parts.len(),
            text@ == joined(strings(parts@).take(i as int), separator@),
        decreases parts.len() - i,
    {
        proof {
            let before = strings(parts@).take(i as int);
            let after = strings(parts@).take(i + 1);
            assert(after.drop_last() =~= before);
            assert(after.last() == parts@[i as int]@);
            if i == 0 {
                assert(joined(after, separator@) =~= Seq::<char>::empty() + parts@[i as int]@);
            } else if i == 1 {
                assert(before.len() == 1);
            }
        }
        if i > 0 {
            text.append(separator);
        }
        text.append(parts[i].as_str());
        i += 1;
    }
    assert(strings(parts@).take(parts.len() as int) =~= strings(parts@));
    text
}

/// `unit` written `count` times.
pub fn repeat(unit: &str, count: usize) -> (text: String)
    ensures
        text@ == repeated(unit@, count as nat),
{
    let mut text = String::new();
    let mut i: usize = 0;
    while i < count
        invariant
            i <= count,
            text@ == repeated(unit@, i as nat),
        decreases count - i,
    {
        text.append(unit);
        i += 1;
    }
    text
}

/// `value` in decimal.
pub fn decimal_string(value: usize) -> (text: String)
    ensures
        text@ == decimal(value as nat),
    decreases value,
{
    let digits = "0123456789";
    proof {
        reveal_strlit("0123456789");
    }
    if value < 10 {
        let mut text = String::new();
        text.append(digits.substring_ascii(value, value + 1));
        assert(text@ =~= seq![digit(value as nat)]);
        text
    } else {
        let mut text = decimal_string(value / 10);
        let last = value % 10;
        text.append(digits.substring_ascii(last, last + 1));
        assert(text@ =~= decimal(value as nat / 10).push(digit(value as nat % 10)));
        text
    }
}

} // verus!
