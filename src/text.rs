use vstd::prelude::*;
use vstd::string::*;

verus! {

/// The characters of `s`, one by one.
pub fn chars_of(s: &str) -> (v: Vec<char>)
    ensures
        v@ == s@,
{
    let mut v: Vec<char> = Vec::new();
    for c in it: s.chars()
        invariant
            v@ == it.seq().take(it.index() as int),
    {
        v.push(c);
    }
    v
}

/// Whether `c` is `lower` once ASCII upper case is folded to lower case.
pub open spec fn folds_to(c: char, lower: char, upper: char) -> bool {
    c == lower || c == upper
}

/// Whether "yes", in any ASCII case, starts at position `i` of `s`.
pub open spec fn yes_at(s: Seq<char>, i: int) -> bool {
    &&& 0 <= i
    &&& i + 3 <= s.len()
    &&& folds_to(s[i], 'y', 'Y')
    &&& folds_to(s[i + 1], 'e', 'E')
    &&& folds_to(s[i + 2], 's', 'S')
}

/// Whether `s`, folded to ASCII lower case, contains "yes".
pub open spec fn is_affirmative(s: Seq<char>) -> bool {
    exists|i: int| yes_at(s, i)
}

/// Reads a model's answer to a yes/no question: it agrees exactly when the
/// answer contains "yes" in any mix of ASCII case. Anything else, an
/// ambiguous or malformed answer included, counts as a refusal.
pub fn says_yes(answer: &str) -> (r: bool)
    ensures
        r == is_affirmative(answer@),
{
    let cs = chars_of(answer);
    let n = cs.len();
    if n < 3 {
        return false;
    }
    let mut i: usize = 0;
    while i <= n - 3
        invariant
            cs@ == answer@,
            n == cs@.len(),
            n >= 3,
            i <= n - 2,
            forall|j: int| 0 <= j < i ==> !yes_at(answer@, j),
        decreases n - i,
    {
        if (cs[i] == 'y' || cs[i] == 'Y') && (cs[i + 1] == 'e' || cs[i + 1] == 'E') && (cs[i + 2]
            == 's' || cs[i + 2] == 'S') {
            assert(yes_at(answer@, i as int));
            return true;
        }
        i = i + 1;
    }
    false
}

/// Whether `a` and `b` hold the same text.
pub fn same_text(a: &str, b: &str) -> (r: bool)
    ensures
        r == (a@ == b@),
{
    let x = chars_of(a);
    let y = chars_of(b);
    if x.len() != y.len() {
        return false;
    }
    let mut i: usize = 0;
    while i < x.len()
        invariant
            x@ == a@,
            y@ == b@,
            x@.len() == y@.len(),
            i <= x@.len(),
            forall|j: int| 0 <= j < i ==> x@[j] == y@[j],
        decreases x@.len() - i,
    {
        if x[i] != y[i] {
            return false;
        }
        i = i + 1;
    }
    assert(a@ =~= b@);
    true
}

/// The name a speaker goes by: the display name if there is one, else the
/// account name.
pub open spec fn speaker_name(display_name: Option<Seq<char>>, account_name: Seq<char>) -> Seq<char> {
    match display_name {
        Some(d) => d,
        None => account_name,
    }
}

/// What the model is shown of a message: in a shared conversation the
/// speaker's name comes first so that speakers can be told apart.
pub open spec fn utterance(speaker: Seq<char>, text: Seq<char>, one_to_one: bool) -> Seq<char> {
    if one_to_one {
        text
    } else {
        speaker + " says: "@ + text
    }
}

/// Formats an incoming message for the history: `"<name> says: <text>"` in a
/// shared conversation, the bare text in a one-to-one conversation.
pub fn format_utterance(
    display_name: Option<&str>,
    account_name: &str,
    text: &str,
    one_to_one: bool,
) -> (r: String)
    ensures
        r@ == utterance(
            speaker_name(
                match display_name {
                    Some(d) => Some(d@),
                    None => None,
                },
                account_name@,
            ),
            text@,
            one_to_one,
        ),
{
    if one_to_one {
        return String::from_str(text);
    }
    let speaker = match display_name {
        Some(d) => d,
        None => account_name,
    };
    String::from_str(speaker).concat(" says: ").concat(text)
}

/// The number of characters of `s`.
pub fn char_count(s: &str) -> (n: usize)
    ensures
        n == s@.len(),
{
    chars_of(s).len()
}

} // verus!
