//! Text that the rooms show: numbers in decimal, mentions and lists of
//! mentions.

use vstd::prelude::*;
use vstd::string::*;

verus! {

/// The character of a decimal digit.
pub open spec fn digit(d: int) -> char {
    if d == 0 {
        '0'
    } else if d == 1 {
        '1'
    } else if d == 2 {
        '2'
    } else if d == 3 {
        '3'
    } else if d == 4 {
        '4'
    } else if d == 5 {
        '5'
    } else if d == 6 {
        '6'
    } else if d == 7 {
        '7'
    } else if d == 8 {
        '8'
    } else {
        '9'
    }
}

/// A number in decimal, without leading zeros.
pub open spec fn decimal(n: nat) -> Seq<char>
    decreases n,
{
    if n < 10 {
        seq![digit(n as int)]
    } else {
        decimal(n / 10).push(digit((n % 10) as int))
    }
}

/// The mention of a user.
pub open spec fn user_mention(id: u64) -> Seq<char> {
    "<@"@ + decimal(id as nat) + ">"@
}

/// The mention of a role.
pub open spec fn role_mention(id: u64) -> Seq<char> {
    "<@&"@ + decimal(id as nat) + ">"@
}

/// The mention of a user or of a role.
pub open spec fn mention(id: u64, role: bool) -> Seq<char> {
    if role {
        role_mention(id)
    } else {
        user_mention(id)
    }
}

/// The mentions of the identifiers, separated by a comma and a space.
pub open spec fn mention_list(ids: Seq<u64>, role: bool) -> Seq<char>
    decreases ids.len(),
{
    if ids.len() == 0 {
        Seq::empty()
    } else if ids.len() == 1 {
        mention(ids[0], role)
    } else {
        mention_list(ids.drop_last(), role) + ", "@ + mention(ids.last(), role)
    }
}

/// Appends one character to a string (`String::push` of the standard
/// library): the text afterwards is the text before, followed by the
/// character.
#[verifier::external_body]
fn push_char(text: &mut String, c: char)
    ensures
        final(text)@ == old(text)@.push(c),
{
    text.push(c);
}

fn digit_char(d: u64) -> (c: char)
    requires
        d < 10,
    ensures
        c == digit(d as int),
{
    if d == 0 {
        '0'
    } else if d == 1 {
        '1'
    } else if d == 2 {
        '2'
    } else if d == 3 {
        '3'
    } else if d == 4 {
        '4'
    } else if d == 5 {
        '5'
    } else if d == 6 {
        '6'
    } else if d == 7 {
        '7'
    } else if d == 8 {
        '8'
    } else {
        '9'
    }
}

/// Appends `n` in decimal.
pub fn push_decimal(text: &mut String, n: u64)
    ensures
        final(text)@ == old(text)@ + decimal(n as nat),
{
    let mut digits: Vec<char> = Vec::new();
    let mut rest = n;
    while rest >= 10
        invariant
            decimal(n as nat) == decimal(rest as nat) + digits@.reverse(),
        decreases rest,
    {
        let c = digit_char(rest % 10);
        proof {
            let shorter = decimal((rest / 10) as nat);
            assert(decimal(rest as nat) == shorter.push(c));
            assert(shorter.push(c) + digits@.reverse() =~= shorter + digits@.push(c).reverse());
        }
        digits.push(c);
        rest = rest / 10;
    }
    let first = digit_char(rest);
    push_char(text, first);
    let ghost start = text@;
    let mut i: usize = digits.len();
    assert(digits@.reverse().take(0) =~= Seq::<char>::empty());
    while i > 0
        invariant
            i <= digits.len(),
            text@ == start + digits@.reverse().take(digits.len() - i),
        decreases i,
    {
        i -= 1;
        push_char(text, digits[i]);
        proof {
            let reversed = digits@.reverse();
            let done = digits.len() - i;
            assert(reversed.take(done) =~= reversed.take(done - 1).push(digits@[i as int]));
        }
    }
    assert(digits@.reverse().take(digits.len() as int) =~= digits@.reverse());
    assert(text@ =~= old(text)@ + decimal(n as nat));
}

/// Appends the mention of a user, or of a role where `role` is set.
pub fn push_mention(text: &mut String, id: u64, role: bool)
    ensures
        final(text)@ == old(text)@ + mention(id, role),
{
    if role {
        text.append("<@&");
    } else {
        text.append("<@");
    }
    push_decimal(text, id);
    text.append(">");
    assert(text@ =~= old(text)@ + mention(id, role));
}

/// Appends the mentions of the identifiers, separated by a comma and a
/// space.
pub fn push_mention_list(text: &mut String, ids: &Vec<u64>, role: bool)
    ensures
        final(text)@ == old(text)@ + mention_list(ids@, role),
{
    let ghost start = text@;
    let mut i: usize = 0;
    assert(ids@.take(0) =~= Seq::<u64>::empty());
    assert(text@ =~= start + mention_list(ids@.take(0), role));
    while i < ids.len()
        invariant
            i <= ids.len(),
            text@ == start + mention_list(ids@.take(i as int), role),
        decreases ids.len() - i,
    {
        proof {
            assert(ids@.take(i as int + 1).drop_last() =~= ids@.take(i as int));
            assert(ids@.take(i as int + 1).last() == ids@[i as int]);
            if i == 0 {
                assert(ids@.take(1)[0] == ids@[0]);
                assert(mention_list(ids@.take(0), role) =~= Seq::<char>::empty());
            }
        }
        if i > 0 {
            text.append(", ");
        }
        push_mention(text, ids[i], role);
        assert(text@ =~= start + mention_list(ids@.take(i as int + 1), role));
        i += 1;
    }
    proof {
        ids@.lemma_take_len();
    }
}

/// The mentions of the identifiers, separated by a comma and a space.
pub fn mentions_of(ids: &Vec<u64>, role: bool) -> (text: String)
    ensures
        text@ == mention_list(ids@, role),
{
    let mut text = String::new();
    push_mention_list(&mut text, ids, role);
    assert(text@ =~= mention_list(ids@, role));
    text
}

} // verus!
