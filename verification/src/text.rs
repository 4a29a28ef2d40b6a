//! Text helpers: decimal numerals, comparison, and the parts of a file name.

use vstd::prelude::*;
use vstd::string::*;

verus! {

/// The character of one decimal digit.
pub open spec fn digit_char(d: nat) -> char {
    if d == 0 {
        '0'
    } else if d == 1 {
        '1'
    } else if d == 2 {
        '2'
    } else if d == 3 {
        '3'
    } else if d == 4 {
        '4'
    } else if d == 5 {
        '5'
    } else if d == 6 {
        '6'
    } else if d == 7 {
        '7'
    } else if d == 8 {
        '8'
    } else {
        '9'
    }
}

/// The decimal numeral of `n`, without sign or leading zeros.
pub open spec fn decimal(n: nat) -> Seq<char>
    decreases n,
{
    if n < 10 {
        seq![digit_char(n)]
    } else {
        decimal(n / 10).push(digit_char(n % 10))
    }
}

/// Different digits have different characters.
pub proof fn lemma_digit_char_injective(x: nat, y: nat)
    requires
        x < 10,
        y < 10,
        digit_char(x) == digit_char(y),
    ensures
        x == y,
{
}

/// Two numbers with the same numeral are the same number.
pub proof fn lemma_decimal_injective(a: nat, b: nat)
    requires
        decimal(a) == decimal(b),
    ensures
        a == b,
    decreases a,
{
    if a < 10 {
        if b >= 10 {
            lemma_decimal_nonempty(b / 10);
            assert(decimal(b).len() == decimal(b / 10).len() + 1);
            assert(false);
        }
        assert(decimal(a)[0] == digit_char(a));
        assert(decimal(b)[0] == digit_char(b));
        lemma_digit_char_injective(a, b);
    } else {
        if b < 10 {
            lemma_decimal_nonempty(a / 10);
            assert(decimal(a).len() == decimal(a / 10).len() + 1);
            assert(false);
        } else {
            let da = decimal(a / 10);
            let db = decimal(b / 10);
            assert(decimal(a).last() == digit_char(a % 10));
            assert(decimal(b).last() == digit_char(b % 10));
            assert(decimal(a).drop_last() =~= da);
            assert(decimal(b).drop_last() =~= db);
            lemma_decimal_injective(a / 10, b / 10);
            lemma_digit_char_injective(a % 10, b % 10);
            assert(a == 10 * (a / 10) + a % 10);
            assert(b == 10 * (b / 10) + b % 10);
        }
    }
}

/// A numeral has at least one digit.
pub proof fn lemma_decimal_nonempty(n: nat)
    ensures
        decimal(n).len() >= 1,
    decreases n,
{
    if n >= 10 {
        lemma_decimal_nonempty(n / 10);
    }
}

fn digit_text(d: u128) -> (r: &'static str)
    requires
        d < 10,
    ensures
        r@ == seq![digit_char(d as nat)],
{
    proof {
        reveal_strlit("0");
        reveal_strlit("1");
        reveal_strlit("2");
        reveal_strlit("3");
        reveal_strlit("4");
        reveal_strlit("5");
        reveal_strlit("6");
        reveal_strlit("7");
        reveal_strlit("8");
        reveal_strlit("9");
    }
    let r = if d == 0 {
        "0"
    } else if d == 1 {
        "1"
    } else if d == 2 {
        "2"
    } else if d == 3 {
        "3"
    } else if d == 4 {
        "4"
    } else if d == 5 {
        "5"
    } else if d == 6 {
        "6"
    } else if d == 7 {
        "7"
    } else if d == 8 {
        "8"
    } else {
        "9"
    };
    assert(r@ =~= seq![digit_char(d as nat)]);
    r
}

/// Writes `n` as a decimal numeral.
pub fn u128_to_text(n: u128) -> (r: String)
    ensures
        r@ == decimal(n as nat),
    decreases n,
{
    if n < 10 {
        digit_text(n).to_string()
    } else {
        let head = u128_to_text(n / 10);
        let r = head.concat(digit_text(n % 10));
        assert(r@ =~= decimal((n / 10) as nat).push(digit_char((n % 10) as nat)));
        r
    }
}

/// Writes `n` as a decimal numeral.
pub fn u64_to_text(n: u64) -> (r: String)
    ensures
        r@ == decimal(n as nat),
{
    u128_to_text(n as u128)
}

/// Whether two texts are the same.
pub fn text_eq(a: &str, b: &str) -> (r: bool)
    ensures
        r == (a@ == b@),
{
    let x = a.to_owned();
    let y = b.to_owned();
    x == y
}

/// Whether `hay` holds a text equal to `needle`.
pub fn contains_text(hay: &Vec<String>, needle: &str) -> (r: bool)
    ensures
        r == hay.deep_view().contains(needle@),
{
    let mut i: usize = 0;
    while i < hay.len()
        invariant
            i <= hay.len(),
            forall|j: int| 0 <= j < i ==> hay[j]@ != needle@,
        decreases hay.len() - i,
    {
        if text_eq(hay[i].as_str(), needle) {
            assert(hay.deep_view()[i as int] == needle@);
            return true;
        }
        i = i + 1;
    }
    assert(forall|j: int| 0 <= j < hay.deep_view().len() ==> hay.deep_view()[j] == hay[j]@);
    false
}

/// Compares two secrets without stopping at the first difference: every
/// byte of two texts of the same length is looked at, whatever they hold.
pub fn constant_time_eq(a: &str, b: &str) -> (r: bool)
    ensures
        r == (a@ == b@),
{
    let x = a.as_bytes();
    let y = b.as_bytes();
    proof {
        vstd::utf8::encode_utf8_decode_utf8(a@);
        vstd::utf8::encode_utf8_decode_utf8(b@);
    }
    if x.len() != y.len() {
        return false;
    }
    let mut diff: u8 = 0;
    let mut i: usize = 0;
    while i < x.len()
        invariant
            i <= x.len(),
            x.len() == y.len(),
            (diff == 0) <==> (forall|j: int| 0 <= j < i ==> x@[j] == y@[j]),
        decreases x.len() - i,
    {
        let xi: u8 = x[i];
        let yi: u8 = y[i];
        let d: u8 = xi ^ yi;
        assert((d == 0) <==> (xi == yi)) by (bit_vector)
            requires
                d == xi ^ yi,
        ;
        let ghost before = diff;
        diff = diff | d;
        assert((diff == 0) <==> (before == 0 && d == 0)) by (bit_vector)
            requires
                diff == before | d,
        ;
        i = i + 1;
    }
    if diff == 0 {
        assert(x@ =~= y@);
    }
    diff == 0
}

/// Whether a character separates the components of a path.
pub open spec fn is_separator(c: char) -> bool {
    c == '/' || c == '\\'
}

/// Where the last component of a path starts: just behind its last
/// separator, or at 0 where it has none.
pub open spec fn leaf_start(s: Seq<char>) -> int
    decreases s.len(),
{
    if s.len() == 0 {
        0
    } else if is_separator(s.last()) {
        s.len() as int
    } else {
        leaf_start(s.drop_last())
    }
}

/// The last component of a path: what follows its last separator.
pub open spec fn basename(s: Seq<char>) -> Seq<char> {
    s.skip(leaf_start(s))
}

/// `leaf_start` lies within the text, is preceded by a separator unless it
/// is 0, and no separator follows it.
pub proof fn lemma_leaf_start(s: Seq<char>)
    ensures
        0 <= leaf_start(s) <= s.len(),
        leaf_start(s) > 0 ==> is_separator(s[leaf_start(s) - 1]),
        forall|i: int| leaf_start(s) <= i < s.len() ==> !is_separator(s[i]),
    decreases s.len(),
{
    if s.len() > 0 && !is_separator(s.last()) {
        lemma_leaf_start(s.drop_last());
        assert forall|i: int| leaf_start(s) <= i < s.len() implies !is_separator(s[i]) by {
            if i < s.len() - 1 {
                assert(s.drop_last()[i] == s[i]);
            }
        }
    }
}

/// Whether a text has no separator in it.
pub open spec fn separator_free(s: Seq<char>) -> bool {
    forall|i: int| 0 <= i < s.len() ==> !is_separator(s[i])
}

/// A text without separators is its own last component.
pub proof fn lemma_basename_of_leaf(s: Seq<char>)
    requires
        separator_free(s),
    ensures
        basename(s) == s,
    decreases s.len(),
{
    if s.len() > 0 {
        lemma_basename_of_leaf(s.drop_last());
        lemma_leaf_start(s.drop_last());
        assert(leaf_start(s) == leaf_start(s.drop_last()));
        if leaf_start(s) > 0 {
            assert(s.drop_last()[leaf_start(s) - 1] == s[leaf_start(s) - 1]);
        }
    }
    assert(s.skip(0) =~= s);
}

/// The last component of a path.
pub fn file_leaf(path: &str) -> (r: String)
    ensures
        r@ == basename(path@),
        separator_free(r@),
{
    let n: usize = path.unicode_len();
    let mut start: usize = 0;
    let mut i: usize = 0;
    while i < n
        invariant
            i <= n,
            n == path@.len(),
            start <= i,
            start == leaf_start(path@.take(i as int)),
        decreases n - i,
    {
        let c = path.get_char(i);
        proof {
            let t = path@.take(i as int + 1);
            assert(t.drop_last() =~= path@.take(i as int));
            assert(t.last() == c);
        }
        if c == '/' || c == '\\' {
            start = i + 1;
        }
        i = i + 1;
    }
    proof {
        assert(path@.take(n as int) =~= path@);
        lemma_leaf_start(path@);
    }
    let leaf = path.substring_char(start, n);
    assert(leaf@ =~= basename(path@));
    leaf.to_owned()
}

/// Index of the last `.` of a text, or -1 where it has none.
pub open spec fn last_dot(s: Seq<char>) -> int
    decreases s.len(),
{
    if s.len() == 0 {
        -1
    } else if s.last() == '.' {
        s.len() - 1
    } else {
        last_dot(s.drop_last())
    }
}

/// Where the extension of a file name starts: at its last `.`, unless that
/// is its first character or it has none; then the name has no extension
/// and this is its length.
pub open spec fn ext_start(name: Seq<char>) -> int {
    if last_dot(name) > 0 {
        last_dot(name)
    } else {
        name.len() as int
    }
}

/// `last_dot` is -1 or the index of a `.`.
pub proof fn lemma_last_dot(s: Seq<char>)
    ensures
        -1 <= last_dot(s) < s.len(),
        last_dot(s) >= 0 ==> s[last_dot(s)] == '.',
    decreases s.len(),
{
    if s.len() > 0 && s.last() != '.' {
        lemma_last_dot(s.drop_last());
        if last_dot(s) >= 0 {
            assert(s.drop_last()[last_dot(s)] == s[last_dot(s)]);
        }
    }
}

/// The name tried for a file whose own name is taken: `k` in brackets goes
/// between the name's stem and its extension, after a space.
pub open spec fn numbered_name(name: Seq<char>, k: nat) -> Seq<char> {
    name.take(ext_start(name)) + " ("@ + decimal(k) + ")"@ + name.skip(ext_start(name))
}

/// Different numbers give different numbered names.
pub proof fn lemma_numbered_name_injective(name: Seq<char>, j: nat, k: nat)
    requires
        numbered_name(name, j) == numbered_name(name, k),
    ensures
        j == k,
{
    lemma_last_dot(name);
    let stem = name.take(ext_start(name));
    let ext = name.skip(ext_start(name));
    let a = numbered_name(name, j);
    let b = numbered_name(name, k);
    let lo: int = (stem.len() + " ("@.len()) as int;
    assert(a.len() == lo + decimal(j).len() + ")"@.len() + ext.len());
    assert(b.len() == lo + decimal(k).len() + ")"@.len() + ext.len());
    assert(a.subrange(lo, lo + decimal(j).len()) =~= decimal(j));
    assert(b.subrange(lo, lo + decimal(k).len()) =~= decimal(k));
    lemma_decimal_injective(j, k);
}

/// No digit of a numeral is a separator.
pub proof fn lemma_decimal_separator_free(n: nat)
    ensures
        separator_free(decimal(n)),
    decreases n,
{
    if n >= 10 {
        lemma_decimal_separator_free(n / 10);
        let d = decimal(n);
        assert forall|i: int| 0 <= i < d.len() implies !is_separator(d[i]) by {
            if i < d.len() - 1 {
                assert(d[i] == decimal(n / 10)[i]);
            }
        }
    }
}

/// A numbered name is longer than the name by four characters at least,
/// and has no separator where the name has none.
pub proof fn lemma_numbered_name_shape(name: Seq<char>, k: nat)
    ensures
        numbered_name(name, k).len() >= name.len() + 4,
        separator_free(name) ==> separator_free(numbered_name(name, k)),
{
    reveal_strlit(" (");
    reveal_strlit(")");
    lemma_last_dot(name);
    lemma_decimal_nonempty(k);
    lemma_decimal_separator_free(k);
    let cut = ext_start(name);
    let stem = name.take(cut);
    let ext = name.skip(cut);
    let r = numbered_name(name, k);
    assert(r.len() == stem.len() + 2 + decimal(k).len() + 1 + ext.len());
    if separator_free(name) {
        assert forall|i: int| 0 <= i < r.len() implies !is_separator(r[i]) by {
            if i < stem.len() {
                assert(r[i] == name[i]);
            } else if i < stem.len() + 2 {
                assert(r[i] == " ("@[i - stem.len()]);
            } else if i < stem.len() + 2 + decimal(k).len() {
                assert(r[i] == decimal(k)[i - stem.len() - 2]);
            } else if i < stem.len() + 2 + decimal(k).len() + 1 {
                assert(r[i] == ")"@[i - stem.len() - 2 - decimal(k).len()]);
            } else {
                assert(r[i] == ext[i - stem.len() - 2 - decimal(k).len() - 1]);
                assert(r[i] == name[cut + (i - stem.len() - 2 - decimal(k).len() - 1)]);
            }
        }
    }
}

/// Builds the numbered name of `name` for the number `k`.
pub fn make_numbered_name(name: &str, k: u128) -> (r: String)
    ensures
        r@ == numbered_name(name@, k as nat),
{
    let n: usize = name.unicode_len();
    let mut dot: usize = 0;
    let mut found: bool = false;
    let mut i: usize = 0;
    while i < n
        invariant
            i <= n,
            n == name@.len(),
            found ==> dot < i && dot == last_dot(name@.take(i as int)),
            !found ==> last_dot(name@.take(i as int)) == -1,
        decreases n - i,
    {
        let c = name.get_char(i);
        proof {
            let t = name@.take(i as int + 1);
            assert(t.drop_last() =~= name@.take(i as int));
            assert(t.last() == c);
        }
        if c == '.' {
            dot = i;
            found = true;
        }
        i = i + 1;
    }
    assert(name@.take(n as int) =~= name@);
    let cut: usize = if found && dot > 0 {
        dot
    } else {
        n
    };
    assert(cut == ext_start(name@));
    let stem = name.substring_char(0, cut);
    let ext = name.substring_char(cut, n);
    let number = u128_to_text(k);
    stem.to_owned().concat(" (").concat(number.as_str()).concat(")").concat(ext)
}

} // verus!
