//! Conversion of snake-case method names into upper-camel-case variant tags.

use vstd::prelude::*;
use vstd::string::*;

verus! {

/// What `char::to_uppercase` yields for a character outside ASCII.
pub uninterp spec fn unicode_uppercase(c: char) -> Seq<char>;

/// What `char::to_lowercase` yields for a character outside ASCII.
pub uninterp spec fn unicode_lowercase(c: char) -> Seq<char>;

/// The upper-case form of a character: `a`..`z` map to `A`..`Z`, every other
/// ASCII character to itself, and the rest as Unicode prescribes.
pub open spec fn uppercase_of(c: char) -> Seq<char> {
    if 'a' <= c && c <= 'z' {
        seq![((c as u8) - 32) as char]
    } else if (c as u32) < 128 {
        seq![c]
    } else {
        unicode_uppercase(c)
    }
}

/// The lower-case form of a character: `A`..`Z` map to `a`..`z`, every other
/// ASCII character to itself, and the rest as Unicode prescribes.
pub open spec fn lowercase_of(c: char) -> Seq<char> {
    if 'A' <= c && c <= 'Z' {
        seq![((c as u8) + 32) as char]
    } else if (c as u32) < 128 {
        seq![c]
    } else {
        unicode_lowercase(c)
    }
}

/// What the character at position `i` of `s` contributes to the camel-case
/// form: nothing for an underscore, its upper-case form at the start of a
/// segment, its lower-case form elsewhere.
pub open spec fn camel_piece(s: Seq<char>, i: int) -> Seq<char> {
    if s[i] == '_' {
        Seq::empty()
    } else if i == 0 || s[i - 1] == '_' {
        uppercase_of(s[i])
    } else {
        lowercase_of(s[i])
    }
}

/// The contributions of the first `n` positions of `s`, in order.
pub open spec fn camel_prefix(s: Seq<char>, n: nat) -> Seq<char> {
    Seq::new(n, |i: int| camel_piece(s, i)).flatten()
}

/// The camel-case form of `s`: the contributions of its positions, in order.
pub open spec fn camelize(s: Seq<char>) -> Seq<char> {
    camel_prefix(s, s.len())
}

/// `char::to_uppercase`, collected into a string: one capital letter for
/// `a`..`z`, the character itself for the rest of ASCII, and the Unicode
/// mapping, which may be several characters long, for everything else.
#[verifier::external_body]
fn uppercase(c: char) -> (r: String)
    ensures
        'a' <= c && c <= 'z' ==> r@ == seq![((c as u8) - 32) as char],
        (c as u32) < 128 && !('a' <= c && c <= 'z') ==> r@ == seq![c],
        (c as u32) >= 128 ==> r@ == unicode_uppercase(c),
{
    c.to_uppercase().collect()
}

/// `char::to_lowercase`, collected into a string: one small letter for
/// `A`..`Z`, the character itself for the rest of ASCII, and the Unicode
/// mapping, which may be several characters long, for everything else.
#[verifier::external_body]
fn lowercase(c: char) -> (r: String)
    ensures
        'A' <= c && c <= 'Z' ==> r@ == seq![((c as u8) + 32) as char],
        (c as u32) < 128 && !('A' <= c && c <= 'Z') ==> r@ == seq![c],
        (c as u32) >= 128 ==> r@ == unicode_lowercase(c),
{
    c.to_lowercase().collect()
}

proof fn lemma_camel_prefix_step(s: Seq<char>, i: int)
    requires
        0 <= i < s.len(),
    ensures
        camel_prefix(s, (i + 1) as nat) == camel_prefix(s, i as nat) + camel_piece(s, i),
{
    let shorter = Seq::new(i as nat, |j: int| camel_piece(s, j));
    let longer = Seq::new((i + 1) as nat, |j: int| camel_piece(s, j));
    assert(longer =~= shorter.push(camel_piece(s, i)));
    shorter.lemma_flatten_push(camel_piece(s, i));
}

/// Converts a snake-case identifier to upper camel case: underscores go,
/// the first character of each segment is put in upper case, the others in
/// lower case.
pub fn snake_to_camel(ident_str: &str) -> (camel: String)
    ensures
        camel@ == camelize(ident_str@),
{
    let mut camel_ty = String::new();
    let mut last_char_was_underscore = true;
    for c in chars: ident_str.chars()
        invariant
            chars.seq() == ident_str@,
            0 <= chars.index() <= ident_str@.len(),
            last_char_was_underscore == (chars.index() == 0 || ident_str@[chars.index() - 1]
                == '_'),
            camel_ty@ == camel_prefix(ident_str@, chars.index() as nat),
    {
        proof {
            lemma_camel_prefix_step(ident_str@, chars.index());
        }
        if c == '_' {
            last_char_was_underscore = true;
        } else if last_char_was_underscore {
            camel_ty.append(uppercase(c).as_str());
            last_char_was_underscore = false;
        } else {
            camel_ty.append(lowercase(c).as_str());
        }
    }
    camel_ty
}

/// Converts a snake-case identifier to upper camel case, as
/// [`snake_to_camel`] does; here each character is first turned into its
/// piece of the result, and the piece is then appended.
pub fn snake_to_camel2(ident_str: &str) -> (camel: String)
    ensures
        camel@ == camelize(ident_str@),
{
    let mut camel_ty = String::new();
    let mut last_char_was_underscore = true;
    for c in chars: ident_str.chars()
        invariant
            chars.seq() == ident_str@,
            0 <= chars.index() <= ident_str@.len(),
            last_char_was_underscore == (chars.index() == 0 || ident_str@[chars.index() - 1]
                == '_'),
            camel_ty@ == camel_prefix(ident_str@, chars.index() as nat),
    {
        proof {
            lemma_camel_prefix_step(ident_str@, chars.index());
        }
        if c == '_' {
            last_char_was_underscore = true;
        } else {
            let piece = if last_char_was_underscore {
                last_char_was_underscore = false;
                uppercase(c)
            } else {
                lowercase(c)
            };
            camel_ty.append(piece.as_str());
        }
    }
    camel_ty
}

/// A character of a snake-case identifier: a small letter, a digit or an
/// underscore.
pub open spec fn is_snake_char(c: char) -> bool {
    ('a' <= c && c <= 'z') || ('0' <= c && c <= '9') || c == '_'
}

/// A snake-case identifier: small letters, digits and underscores only.
pub open spec fn is_snake_case(s: Seq<char>) -> bool {
    forall|i: int| 0 <= i < s.len() ==> is_snake_char(#[trigger] s[i])
}

proof fn lemma_prefix_without_underscore(s: Seq<char>, n: nat)
    requires
        is_snake_case(s),
        n <= s.len(),
    ensures
        forall|k: int|
            0 <= k < camel_prefix(s, n).len() ==> #[trigger] camel_prefix(s, n)[k] != '_',
    decreases n,
{
    if n > 0 {
        let m = (n - 1) as nat;
        lemma_prefix_without_underscore(s, m);
        lemma_camel_prefix_step(s, m as int);
        assert(is_snake_char(s[m as int]));
        let piece = camel_piece(s, m as int);
        assert(forall|k: int| 0 <= k < piece.len() ==> #[trigger] piece[k] != '_');
        let shorter = camel_prefix(s, m);
        assert(camel_prefix(s, n) == shorter + piece);
        assert forall|k: int| 0 <= k < camel_prefix(s, n).len() implies #[trigger] camel_prefix(
            s,
            n,
        )[k] != '_' by {
            if k < shorter.len() {
                assert(camel_prefix(s, n)[k] == shorter[k]);
            } else {
                assert(camel_prefix(s, n)[k] == piece[k - shorter.len()]);
            }
        }
    } else {
        assert(Seq::new(0nat, |j: int| camel_piece(s, j)) =~= Seq::<Seq<char>>::empty());
    }
}

/// The camel-case form of a snake-case identifier holds no underscore.
pub proof fn lemma_camelize_without_underscore(s: Seq<char>)
    requires
        is_snake_case(s),
    ensures
        forall|k: int| 0 <= k < camelize(s).len() ==> #[trigger] camelize(s)[k] != '_',
{
    lemma_prefix_without_underscore(s, s.len());
    assert forall|k: int| 0 <= k < camelize(s).len() implies #[trigger] camelize(s)[k]
        != '_' by {
        assert(camel_prefix(s, s.len())[k] != '_');
    }
}

/// Underscores collapse: one more underscore at the start, at the end, or
/// next to another underscore leaves the camel-case form as it was.
pub proof fn lemma_camelize_collapses_underscores(s: Seq<char>, k: int)
    requires
        0 <= k <= s.len(),
        k == 0 || k == s.len() || s[k - 1] == '_' || s[k] == '_',
    ensures
        camelize(s.insert(k, '_')) == camelize(s),
{
    let longer = s.insert(k, '_');
    let pieces = Seq::new(s.len(), |i: int| camel_piece(s, i));
    let longer_pieces = Seq::new(longer.len(), |i: int| camel_piece(longer, i));
    let front = pieces.take(k);
    let back = pieces.skip(k);
    let gap = seq![Seq::<char>::empty()];
    assert(longer_pieces =~= front + gap + back) by {
        assert forall|i: int| 0 <= i < longer_pieces.len() implies longer_pieces[i] == (front
            + gap + back)[i] by {
            if i < k {
                assert(longer[i] == s[i]);
            } else if i == k {
                assert(longer[i] == '_');
            } else {
                assert(longer[i] == s[i - 1]);
                if i - 1 > k {
                    assert(longer[i - 1] == s[i - 2]);
                }
            }
        }
    }
    assert(pieces =~= front + back);
    vstd::seq_lib::lemma_flatten_concat(front, gap);
    vstd::seq_lib::lemma_flatten_concat(front + gap, back);
    vstd::seq_lib::lemma_flatten_concat(front, back);
    gap.lemma_flatten_one_element();
    assert(front.flatten() + gap.flatten() =~= front.flatten());
}

} // verus!
