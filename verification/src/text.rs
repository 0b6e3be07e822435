use vstd::prelude::*;
use vstd::string::*;

verus! {

/// Whether a character has the Unicode `White_Space` property, which is what
/// std's `char::is_whitespace` (and so `str::trim`) tests: the code points
/// U+0009..U+000D, U+0020, U+0085, U+00A0, U+1680, U+2000..U+200A, U+2028,
/// U+2029, U+202F, U+205F and U+3000 (Unicode's PropList).
pub open spec fn espacio_unicode(c: char) -> bool {
    let n = c as u32;
    ||| 0x9 <= n <= 0xD
    ||| n == 0x20
    ||| n == 0x85
    ||| n == 0xA0
    ||| n == 0x1680
    ||| 0x2000 <= n <= 0x200A
    ||| n == 0x2028
    ||| n == 0x2029
    ||| n == 0x202F
    ||| n == 0x205F
    ||| n == 0x3000
}

/// Decides whether a character is Unicode whitespace.
pub fn es_espacio(c: char) -> (r: bool)
    ensures
        r == espacio_unicode(c),
{
    let n = c as u32;
    (0x9 <= n && n <= 0xD) || n == 0x20 || n == 0x85 || n == 0xA0 || n == 0x1680 || (0x2000 <= n
        && n <= 0x200A) || n == 0x2028 || n == 0x2029 || n == 0x202F || n == 0x205F || n == 0x3000
}

/// A string is blank when every character in it is whitespace (the empty
/// string is blank). This is exactly when trimming it leaves nothing, since
/// trimming removes leading and trailing whitespace characters.
pub open spec fn en_blanco_spec(s: Seq<char>) -> bool {
    forall|i: int| 0 <= i < s.len() ==> #[trigger] espacio_unicode(s[i])
}

/// An ASCII digit is not whitespace, so a text that holds one is not blank.
pub proof fn lema_digito_no_blanco(s: Seq<char>, i: int)
    requires
        0 <= i < s.len(),
        '0' <= s[i] <= '9',
    ensures
        !en_blanco_spec(s),
{
    assert(!espacio_unicode(s[i]));
}

/// Decides whether `s` is blank.
pub fn en_blanco(s: &str) -> (r: bool)
    ensures
        r == en_blanco_spec(s@),
{
    let n = s.unicode_len();
    let mut i: usize = 0;
    while i < n
        invariant
            n == s@.len(),
            i <= n,
            forall|j: int| 0 <= j < i ==> #[trigger] espacio_unicode(s@[j]),
        decreases n - i,
    {
        let c = s.get_char(i);
        if !es_espacio(c) {
            assert(!espacio_unicode(s@[i as int]));
            return false;
        }
        i = i + 1;
    }
    true
}

} // verus!
