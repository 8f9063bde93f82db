//! Character-level helpers: the slug of a display name and decimal numerals.
use vstd::prelude::*;

verus! {

/// What `str::to_lowercase` returns for a string: Unicode lower-case mapping.
pub uninterp spec fn lower_of(s: Seq<char>) -> Seq<char>;

/// Relies on `str::to_lowercase`: the result depends on the characters alone,
/// and an empty string stays empty.
#[verifier::external_body]
fn lowercase(s: &str) -> (r: String)
    ensures
        r@ == lower_of(s@),
        s@.len() == 0 ==> r@.len() == 0,
{
    s.to_lowercase()
}

/// One character with every ASCII space turned into an underscore.
pub open spec fn underscore_char(c: char) -> char {
    if c == ' ' {
        '_'
    } else {
        c
    }
}

/// Every ASCII space of `s` turned into an underscore; nothing else changes.
pub open spec fn underscore_spaces(s: Seq<char>) -> Seq<char> {
    s.map_values(|c: char| underscore_char(c))
}

/// The slug of a display name: lower-cased, then spaces become underscores.
pub open spec fn slug_of(name: Seq<char>) -> Seq<char> {
    underscore_spaces(lower_of(name))
}

/// Returns `s` with each ASCII space replaced by `_`.
pub fn replace_spaces(s: &str) -> (r: String)
    ensures
        r@ == underscore_spaces(s@),
{
    let n = s.unicode_len();
    let mut r = String::new();
    let mut i: usize = 0;
    while i < n
        invariant
            n == s@.len(),
            i <= n,
            r@ == underscore_spaces(s@.subrange(0, i as int)),
        decreases n - i,
    {
        let c = s.get_char(i);
        let ghost before = r@;
        if c == ' ' {
            proof {
                reveal_strlit("_");
            }
            r.append("_");
            assert("_"@ =~= seq!['_']);
        } else {
            let piece = s.substring_char(i, i + 1);
            assert(piece@ =~= seq![c]);
            r.append(piece);
        }
        assert(r@ =~= before.push(underscore_char(c)));
        assert(s@.subrange(0, i + 1) == s@.subrange(0, i as int).push(c));
        assert(underscore_spaces(s@.subrange(0, i + 1)) =~= underscore_spaces(
            s@.subrange(0, i as int),
        ).push(underscore_char(c)));
        i = i + 1;
    }
    assert(s@.subrange(0, n as int) == s@);
    r
}

/// The slug of `name`: its lower-case form with spaces turned into underscores.
pub fn slug(name: &str) -> (r: String)
    ensures
        r@ == slug_of(name@),
{
    let lower = lowercase(name);
    replace_spaces(lower.as_str())
}

/// Replacing spaces a second time changes nothing.
pub proof fn lemma_underscore_idempotent(s: Seq<char>)
    ensures
        underscore_spaces(underscore_spaces(s)) == underscore_spaces(s),
{
    assert(underscore_spaces(underscore_spaces(s)) =~= underscore_spaces(s));
}

/// A slug keeps every character of the lower-cased name but the ASCII space,
/// and has no space left in it.
pub proof fn lemma_slug_keeps_other_chars(name: Seq<char>)
    ensures
        slug_of(name).len() == lower_of(name).len(),
        forall|i: int|
            0 <= i < lower_of(name).len() && lower_of(name)[i] != ' ' ==> slug_of(name)[i]
                == lower_of(name)[i],
        forall|i: int| 0 <= i < slug_of(name).len() ==> slug_of(name)[i] != ' ',
{
}

/// The slug of a slug is the slug itself, for every name whose slug
/// lower-casing leaves unchanged.
pub proof fn lemma_slug_idempotent(name: Seq<char>)
    requires
        lower_of(slug_of(name)) == slug_of(name),
    ensures
        slug_of(slug_of(name)) == slug_of(name),
{
    lemma_underscore_idempotent(lower_of(name));
}

/// The character of a decimal digit.
pub open spec fn digit_char(d: nat) -> char {
    if d == 0 {
        '0'
    } else if d == 1 {
        '1'
    } else if d == 2 {
        '2'
    } else if d == 3 {
        '3'
    } else if d == 4 {
        '4'
    } else if d == 5 {
        '5'
    } else if d == 6 {
        '6'
    } else if d == 7 {
        '7'
    } else if d == 8 {
        '8'
    } else {
        '9'
    }
}

/// The decimal numeral of `n`, without leading zeros.
pub open spec fn decimal(n: nat) -> Seq<char>
    decreases n,
{
    if n < 10 {
        seq![digit_char(n)]
    } else {
        decimal(n / 10) + seq![digit_char(n % 10)]
    }
}

fn digit_str(d: u32) -> (r: &'static str)
    requires
        d < 10,
    ensures
        r@ == seq![digit_char(d as nat)],
{
    proof {
        reveal_strlit("0");
        reveal_strlit("1");
        reveal_strlit("2");
        reveal_strlit("3");
        reveal_strlit("4");
        reveal_strlit("5");
        reveal_strlit("6");
        reveal_strlit("7");
        reveal_strlit("8");
        reveal_strlit("9");
    }
    let r = if d == 0 {
        "0"
    } else if d == 1 {
        "1"
    } else if d == 2 {
        "2"
    } else if d == 3 {
        "3"
    } else if d == 4 {
        "4"
    } else if d == 5 {
        "5"
    } else if d == 6 {
        "6"
    } else if d == 7 {
        "7"
    } else if d == 8 {
        "8"
    } else {
        "9"
    };
    assert(r@ =~= seq![digit_char(d as nat)]);
    r
}

/// Appends the decimal numeral of `n` to `s`.
pub fn push_decimal(s: &mut String, n: u32)
    ensures
        final(s)@ == old(s)@ + decimal(n as nat),
    decreases n,
{
    if n >= 10 {
        push_decimal(s, n / 10);
    }
    s.append(digit_str(n % 10));
    assert(final(s)@ =~= old(s)@ + decimal(n as nat));
}

} // verus!
