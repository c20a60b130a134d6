use vstd::prelude::*;

verus! {

/// The whitespace characters stripped from the ends of request text.
pub open spec fn is_space_char(c: char) -> bool {
    c == ' ' || c == '\t' || c == '\n' || c == '\r'
}

fn is_space(c: char) -> (r: bool)
    ensures
        r == is_space_char(c),
{
    c == ' ' || c == '\t' || c == '\n' || c == '\r'
}

/// Index of the first non-space character at or after `i`, or the length
/// if none follows.
pub open spec fn first_non_space_from(s: Seq<char>, i: int) -> int
    decreases s.len() - i,
{
    if i < 0 || i >= s.len() {
        i
    } else if is_space_char(s[i]) {
        first_non_space_from(s, i + 1)
    } else {
        i
    }
}

/// Index just past the last non-space character strictly before `i`, or
/// zero if only spaces precede `i`.
pub open spec fn trim_end_index(s: Seq<char>, i: int) -> int
    decreases i,
{
    if i <= 0 {
        0
    } else if is_space_char(s[i - 1]) {
        trim_end_index(s, i - 1)
    } else {
        i
    }
}

/// `s` with leading and trailing whitespace removed.
pub open spec fn spec_trim(s: Seq<char>) -> Seq<char> {
    let a = first_non_space_from(s, 0);
    let b = trim_end_index(s, s.len() as int);
    if a <= b {
        s.subrange(a, b)
    } else {
        Seq::empty()
    }
}

proof fn lemma_first_non_space(s: Seq<char>, i: int, j: int)
    requires
        0 <= i <= j <= s.len(),
        forall|k: int| i <= k < j ==> is_space_char(#[trigger] s[k]),
        j == s.len() || !is_space_char(s[j]),
    ensures
        first_non_space_from(s, i) == j,
    decreases j - i,
{
    if i < j {
        lemma_first_non_space(s, i + 1, j);
    }
}

proof fn lemma_trim_end(s: Seq<char>, i: int, j: int)
    requires
        0 <= j <= i <= s.len(),
        forall|k: int| j <= k < i ==> is_space_char(#[trigger] s[k]),
        j == 0 || !is_space_char(s[j - 1]),
    ensures
        trim_end_index(s, i) == j,
    decreases i - j,
{
    if j < i {
        lemma_trim_end(s, i - 1, j);
    }
}

/// Strips whitespace from both ends of `s`.
#[verifier::loop_isolation(false)]
pub fn trim(s: &str) -> (t: String)
    ensures
        t@ == spec_trim(s@),
{
    let n = s.unicode_len();
    let mut a: usize = 0;
    while a < n && is_space(s.get_char(a))
        invariant
            0 <= a <= n,
            forall|k: int| 0 <= k < a ==> is_space_char(#[trigger] s@[k]),
        decreases n - a,
    {
        a = a + 1;
    }
    proof {
        lemma_first_non_space(s@, 0, a as int);
    }
    if a == n {
        let t = String::new();
        proof {
            lemma_trim_end(s@, n as int, 0);
            if n == 0 {
                assert(s@.subrange(0, 0) =~= Seq::<char>::empty());
            }
        }
        t
    } else {
        let mut b: usize = n;
        while b > a && is_space(s.get_char(b - 1))
            invariant
                a <= b <= n,
                forall|k: int| b <= k < n ==> is_space_char(#[trigger] s@[k]),
            decreases b,
        {
            b = b - 1;
        }
        proof {
            lemma_trim_end(s@, n as int, b as int);
        }
        s.substring_char(a, b).to_owned()
    }
}

/// The object-store key under which a voice's uploaded sample lives.
pub open spec fn spec_sample_key(id: Seq<char>) -> Seq<char> {
    id + ".mp3"@
}

pub fn sample_key(id: &str) -> (k: String)
    ensures
        k@ == spec_sample_key(id@),
{
    let mut k = String::from_str(id);
    k.append(".mp3");
    k
}

/// The voice id encoded in an upload notification's object key, where
/// the key has the expected shape: a non-empty stem followed by ".mp3".
pub open spec fn spec_voice_id_of_key(key: Seq<char>) -> Option<Seq<char>> {
    if key.len() > 4 && key.subrange(key.len() - 4, key.len() as int) == ".mp3"@ {
        Some(key.subrange(0, key.len() - 4))
    } else {
        None
    }
}

pub fn voice_id_of_sample_key(key: &str) -> (r: Option<String>)
    ensures
        match r {
            Some(id) => spec_voice_id_of_key(key@) == Some(id@),
            None => spec_voice_id_of_key(key@) is None,
        },
{
    proof {
        reveal_strlit(".mp3");
        assert(".mp3"@.len() == 4);
        assert(".mp3"@[0] == '.');
        assert(".mp3"@[1] == 'm');
        assert(".mp3"@[2] == 'p');
        assert(".mp3"@[3] == '3');
    }
    let n = key.unicode_len();
    if n <= 4 {
        return None;
    }
    let good = key.get_char(n - 4) == '.' && key.get_char(n - 3) == 'm' && key.get_char(n - 2)
        == 'p' && key.get_char(n - 1) == '3';
    if good {
        proof {
            assert(key@.subrange(n - 4, n as int) =~= ".mp3"@);
        }
        Some(key.substring_char(0, n - 4).to_owned())
    } else {
        proof {
            let tail = key@.subrange(n - 4, n as int);
            assert(tail[0] == key@[n - 4]);
            assert(tail[1] == key@[n - 3]);
            assert(tail[2] == key@[n - 2]);
            assert(tail[3] == key@[n - 1]);
        }
        None
    }
}

/// A key built by `spec_sample_key` always parses back to the id it was
/// built from.
pub proof fn lemma_sample_key_round_trip(id: Seq<char>)
    requires
        id.len() > 0,
    ensures
        spec_voice_id_of_key(spec_sample_key(id)) == Some(id),
{
    reveal_strlit(".mp3");
    assert(".mp3"@.len() == 4);
    let key = spec_sample_key(id);
    assert(key.len() == id.len() + 4);
    assert(key.subrange(key.len() - 4, key.len() as int) =~= ".mp3"@);
    assert(key.subrange(0, key.len() - 4) =~= id);
}

/// `needle` occurs in `hay` starting at position `k`.
pub open spec fn contains_at(hay: Seq<char>, needle: Seq<char>, k: int) -> bool {
    0 <= k && k + needle.len() <= hay.len() && hay.subrange(k, k + needle.len()) == needle
}

/// `needle` occurs somewhere in `hay`.
pub open spec fn contains_seq(hay: Seq<char>, needle: Seq<char>) -> bool {
    exists|k: int| contains_at(hay, needle, k)
}

/// Whether `needle` occurs in `hay` as a contiguous run of characters.
pub fn text_contains(hay: &str, needle: &str) -> (r: bool)
    ensures
        r == contains_seq(hay@, needle@),
{
    let n = hay.unicode_len();
    let m = needle.unicode_len();
    if m > n {
        return false;
    }
    if m == 0 {
        proof {
            assert(hay@.subrange(0, 0) =~= needle@);
            assert(contains_at(hay@, needle@, 0));
        }
        return true;
    }
    let mut k: usize = 0;
    while k <= n - m
        invariant
            0 <= k <= n - m + 1,
            1 <= m <= n,
            n == hay@.len(),
            m == needle@.len(),
            forall|q: int| 0 <= q < k ==> !contains_at(hay@, needle@, q),
        decreases n - k,
    {
        let mut j: usize = 0;
        let mut matched = true;
        while j < m
            invariant_except_break
                matched,
                forall|p: int| 0 <= p < j ==> hay@[k + p] == #[trigger] needle@[p],
            invariant
                0 <= j <= m,
                k + m <= n,
                n == hay@.len(),
                m == needle@.len(),
            ensures
                matched ==> j == m && forall|p: int|
                    0 <= p < m ==> hay@[k + p] == #[trigger] needle@[p],
                !matched ==> !contains_at(hay@, needle@, k as int),
            decreases m - j,
        {
            if hay.get_char(k + j) != needle.get_char(j) {
                matched = false;
                proof {
                    let sub = hay@.subrange(k as int, k + needle@.len());
                    assert(sub[j as int] == hay@[k + j]);
                }
                break ;
            }
            j = j + 1;
        }
        if matched {
            proof {
                assert(hay@.subrange(k as int, k + needle@.len()) =~= needle@);
                assert(contains_at(hay@, needle@, k as int));
            }
            return true;
        }
        k = k + 1;
    }
    false
}

pub open spec fn spec_digit_char(d: nat) -> char {
    if d == 0 {
        '0'
    } else if d == 1 {
        '1'
    } else if d == 2 {
        '2'
    } else if d == 3 {
        '3'
    } else if d == 4 {
        '4'
    } else if d == 5 {
        '5'
    } else if d == 6 {
        '6'
    } else if d == 7 {
        '7'
    } else if d == 8 {
        '8'
    } else {
        '9'
    }
}

/// Decimal digits of `n`, most significant first.
pub open spec fn spec_u64_dec(n: nat) -> Seq<char>
    decreases n,
{
    if n < 10 {
        seq![spec_digit_char(n)]
    } else {
        spec_u64_dec(n / 10).push(spec_digit_char(n % 10))
    }
}

fn digit_str(d: u64) -> (r: &'static str)
    requires
        d < 10,
    ensures
        r@ =~= seq![spec_digit_char(d as nat)],
{
    proof {
        reveal_strlit("0");
        reveal_strlit("1");
        reveal_strlit("2");
        reveal_strlit("3");
        reveal_strlit("4");
        reveal_strlit("5");
        reveal_strlit("6");
        reveal_strlit("7");
        reveal_strlit("8");
        reveal_strlit("9");
        assert("0"@.len() == 1 && "0"@[0] == '0');
        assert("1"@.len() == 1 && "1"@[0] == '1');
        assert("2"@.len() == 1 && "2"@[0] == '2');
        assert("3"@.len() == 1 && "3"@[0] == '3');
        assert("4"@.len() == 1 && "4"@[0] == '4');
        assert("5"@.len() == 1 && "5"@[0] == '5');
        assert("6"@.len() == 1 && "6"@[0] == '6');
        assert("7"@.len() == 1 && "7"@[0] == '7');
        assert("8"@.len() == 1 && "8"@[0] == '8');
        assert("9"@.len() == 1 && "9"@[0] == '9');
    }
    match d {
        0 => "0",
        1 => "1",
        2 => "2",
        3 => "3",
        4 => "4",
        5 => "5",
        6 => "6",
        7 => "7",
        8 => "8",
        _ => "9",
    }
}

/// Renders `n` in decimal.
pub fn u64_to_dec_string(n: u64) -> (s: String)
    ensures
        s@ == spec_u64_dec(n as nat),
    decreases n,
{
    if n < 10 {
        String::from_str(digit_str(n))
    } else {
        let mut s = u64_to_dec_string(n / 10);
        s.append(digit_str(n % 10));
        proof {
            assert(s@ =~= spec_u64_dec(n as nat));
        }
        s
    }
}

/// What `slug::slugify` turns the given text into: an ascii slug that is
/// a function of the characters alone.
pub uninterp spec fn slug_of(s: Seq<char>) -> Seq<char>;

/// Relies on slug::slugify: the result depends only on the input text,
/// and an empty input yields an empty slug.
#[verifier::external_body]
pub(crate) fn slugify(s: &str) -> (r: String)
    ensures
        r@ == slug_of(s@),
        s@.len() == 0 ==> r@.len() == 0,
{
    slug::slugify(s)
}

} // verus!
