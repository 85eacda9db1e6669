//! Wide-character buffers read from a process: NUL-terminated strings, the
//! environment block, and little-endian bytes taken as UTF-16 units.
use vstd::prelude::*;

verus! {

/// The UTF-16 unit of `'='`.
pub const EQUALS_UNIT: u16 = 0x3d;

/// What lossy UTF-16 decoding gives for a sequence of units.
pub uninterp spec fn utf16_lossy(units: Seq<u16>) -> Seq<char>;

/// Relies on `String::from_utf16_lossy`: decodes the units, replacing invalid
/// data by U+FFFD; the result depends on the units alone.
#[verifier::external_body]
pub(crate) fn decode_utf16_lossy(units: &[u16]) -> (r: String)
    ensures
        r@ == utf16_lossy(units@),
        units@.len() == 0 ==> r@.len() == 0,
{
    String::from_utf16_lossy(units)
}

/// Index of the first NUL unit of `s`, or `s.len()` when there is none.
pub open spec fn nul_index(s: Seq<u16>) -> int
    decreases s.len(),
{
    if s.len() == 0 {
        0
    } else if s[0] == 0 {
        0
    } else {
        1 + nul_index(s.drop_first())
    }
}

/// The first NUL of `s` stands at `k` when no unit before `k` is NUL.
pub proof fn lemma_nul_index_at(s: Seq<u16>, k: int)
    requires
        0 <= k <= s.len(),
        forall|i: int| 0 <= i < k ==> s[i] != 0,
        k < s.len() ==> s[k] == 0,
    ensures
        nul_index(s) == k,
    decreases k,
{
    if k > 0 {
        let t = s.drop_first();
        assert forall|i: int| 0 <= i < k - 1 implies t[i] != 0 by {
            assert(t[i] == s[i + 1]);
        }
        if k - 1 < t.len() {
            assert(t[k - 1] == s[k]);
        }
        lemma_nul_index_at(t, k - 1);
    }
}

proof fn lemma_contains_after_push(s: Seq<u16>, c: u16, x: u16)
    ensures
        s.push(c).contains(x) == (s.contains(x) || c == x),
{
    let t = s.push(c);
    if t.contains(x) {
        let j = choose|j: int| 0 <= j < t.len() && t[j] == x;
        if j < s.len() {
            assert(s[j] == x);
        }
    }
    if s.contains(x) {
        let j = choose|j: int| 0 <= j < s.len() && s[j] == x;
        assert(t[j] == x);
    }
    if c == x {
        assert(t[s.len() as int] == x);
    }
}

/// The units before the first NUL (all of them when there is none).
pub open spec fn before_nul(s: Seq<u16>) -> Seq<u16> {
    s.subrange(0, nul_index(s))
}

/// Decodes a wide string that ends at its first NUL, or at the end of the
/// buffer when it holds none.
pub fn null_terminated_wchar_to_string(units: &[u16]) -> (r: String)
    ensures
        r@ == utf16_lossy(before_nul(units@)),
{
    let mut prefix: Vec<u16> = Vec::new();
    let mut i: usize = 0;
    while i < units.len() && units[i] != 0
        invariant
            0 <= i <= units@.len(),
            prefix@ == units@.subrange(0, i as int),
            forall|j: int| 0 <= j < i ==> units@[j] != 0,
        decreases units@.len() - i,
    {
        prefix.push(units[i]);
        i = i + 1;
    }
    proof {
        lemma_nul_index_at(units@, i as int);
    }
    decode_utf16_lossy(prefix.as_slice())
}

/// The entries of an environment block: NUL-terminated segments, taken in
/// order up to the first segment without `'='` or without a terminator.
pub open spec fn env_entries(s: Seq<u16>) -> Seq<Seq<u16>>
    decreases s.len(),
{
    let e = nul_index(s);
    if 0 <= e < s.len() && s.subrange(0, e).contains(EQUALS_UNIT) {
        seq![s.subrange(0, e)] + env_entries(s.subrange(e + 1, s.len() as int))
    } else {
        seq![]
    }
}

/// The environment entries of `s`, each decoded as a string.
pub open spec fn env_strings(s: Seq<u16>) -> Seq<Seq<char>> {
    env_entries(s).map_values(|e: Seq<u16>| utf16_lossy(e))
}

/// Splits a raw environment block into its `KEY=VALUE` entries; parsing stops
/// at the first segment that holds no `'='`.
pub fn parse_environ(block: &[u16]) -> (r: Vec<String>)
    ensures
        r@.map_values(|x: String| x@) == env_strings(block@),
{
    let ghost s = block@;
    let mut result: Vec<String> = Vec::new();
    let mut begin: usize = 0;
    proof {
        assert(s.subrange(0, s.len() as int) == s);
        assert(result@.map_values(|x: String| x@) + env_strings(s) == env_strings(s));
    }
    loop
        invariant
            0 <= begin <= s.len(),
            s == block@,
            result@.map_values(|x: String| x@) + env_strings(s.subrange(begin as int, s.len() as int))
                == env_strings(s),
        decreases s.len() - begin,
    {
        let ghost rest = s.subrange(begin as int, s.len() as int);
        let mut segment: Vec<u16> = Vec::new();
        let mut has_equals = false;
        let mut end: usize = begin;
        while end < block.len() && block[end] != 0
            invariant
                begin <= end <= s.len(),
                s == block@,
                rest == s.subrange(begin as int, s.len() as int),
                segment@ == s.subrange(begin as int, end as int),
                has_equals == segment@.contains(EQUALS_UNIT),
                forall|j: int| begin <= j < end ==> s[j] != 0,
            decreases s.len() - end,
        {
            proof {
                assert(s.subrange(begin as int, end as int + 1) == segment@.push(block@[end as int]));
            }
            let c = block[end];
            let ghost prev = segment@;
            if c == EQUALS_UNIT {
                has_equals = true;
            }
            segment.push(c);
            proof {
                lemma_contains_after_push(prev, c, EQUALS_UNIT);
            }
            end = end + 1;
        }
        let ghost e = (end - begin) as int;
        proof {
            assert forall|i: int| 0 <= i < e implies rest[i] != 0 by {
                assert(rest[i] == s[begin + i]);
            }
            if e < rest.len() {
                assert(rest[e] == s[end as int]);
            }
            lemma_nul_index_at(rest, e);
            assert(rest.subrange(0, e) == segment@);
        }
        if end >= block.len() || !has_equals {
            proof {
                assert(env_entries(rest) == Seq::<Seq<u16>>::empty());
                assert(result@.map_values(|x: String| x@) + env_strings(rest)
                    == result@.map_values(|x: String| x@));
            }
            return result;
        }
        let text = decode_utf16_lossy(segment.as_slice());
        let ghost before = result@;
        result.push(text);
        proof {
            let next = s.subrange(end as int + 1, s.len() as int);
            assert(rest.subrange(e + 1, rest.len() as int) == next);
            assert(env_entries(rest) == seq![segment@] + env_entries(next));
            assert(env_strings(rest) == seq![text@] + env_strings(next));
            assert(result@.map_values(|x: String| x@) == before.map_values(|x: String| x@).push(text@));
            assert(result@.map_values(|x: String| x@) + env_strings(next)
                == before.map_values(|x: String| x@) + env_strings(rest));
        }
        begin = end + 1;
    }
}

/// The little-endian 16-bit value at byte `o` of `b`.
pub open spec fn le_u16(b: Seq<u8>, o: int) -> u16 {
    (b[o] as u16) | ((b[o + 1] as u16) << 8u16)
}

/// The little-endian 32-bit value at byte `o` of `b`.
pub open spec fn le_u32(b: Seq<u8>, o: int) -> u32 {
    (le_u16(b, o) as u32) | ((le_u16(b, o + 2) as u32) << 16u32)
}

/// The little-endian 64-bit value at byte `o` of `b`.
pub open spec fn le_u64(b: Seq<u8>, o: int) -> u64 {
    (le_u32(b, o) as u64) | ((le_u32(b, o + 4) as u64) << 32u64)
}

/// Reads the little-endian 16-bit value at byte `o`.
pub fn read_u16(b: &[u8], o: usize) -> (r: u16)
    requires
        o + 2 <= b.len(),
    ensures
        r == le_u16(b@, o as int),
{
    (b[o] as u16) | ((b[o + 1] as u16) << 8u16)
}

/// Reads the little-endian 32-bit value at byte `o`.
pub fn read_u32(b: &[u8], o: usize) -> (r: u32)
    requires
        o + 4 <= b.len(),
    ensures
        r == le_u32(b@, o as int),
{
    (read_u16(b, o) as u32) | ((read_u16(b, o + 2) as u32) << 16u32)
}

/// Reads the little-endian 64-bit value at byte `o`.
pub fn read_u64(b: &[u8], o: usize) -> (r: u64)
    requires
        o + 8 <= b.len(),
    ensures
        r == le_u64(b@, o as int),
{
    (read_u32(b, o) as u64) | ((read_u32(b, o + 4) as u64) << 32u64)
}

/// Takes bytes as little-endian UTF-16 units; an odd last byte is dropped.
pub fn wide_units(bytes: &[u8]) -> (r: Vec<u16>)
    ensures
        r@.len() == bytes@.len() / 2,
        forall|i: int| 0 <= i < r@.len() ==> r@[i] == le_u16(bytes@, 2 * i),
{
    let n: usize = bytes.len() / 2;
    let mut r: Vec<u16> = Vec::new();
    let mut i: usize = 0;
    while i < n
        invariant
            n == bytes@.len() / 2,
            0 <= i <= n,
            r@.len() == i,
            forall|k: int| 0 <= k < i ==> r@[k] == le_u16(bytes@, 2 * k),
        decreases n - i,
    {
        assert(2 * i + 2 <= bytes.len());
        r.push(read_u16(bytes, 2 * i));
        i = i + 1;
    }
    r
}

/// The working directory held in a buffer read from the process: the wide
/// string up to its first NUL; empty when the read failed.
pub open spec fn cwd_of(bytes: Option<Seq<u8>>) -> Seq<char> {
    match bytes {
        Some(b) => utf16_lossy(before_nul(Seq::new((b.len() / 2) as nat, |i: int| le_u16(b, 2 * i)))),
        None => utf16_lossy(Seq::empty()),
    }
}

/// Decodes the working directory from the bytes read for it, if any.
pub fn decode_cwd(bytes: Option<Vec<u8>>) -> (r: String)
    ensures
        r@ == cwd_of(match bytes { Some(b) => Some(b@), None => None }),
        bytes.is_none() ==> r@.len() == 0,
{
    match bytes {
        Some(b) => {
            let units = wide_units(b.as_slice());
            assert(units@ == Seq::new((b@.len() / 2) as nat, |i: int| le_u16(b@, 2 * i)));
            null_terminated_wchar_to_string(units.as_slice())
        },
        None => {
            let empty: Vec<u16> = Vec::new();
            decode_utf16_lossy(empty.as_slice())
        },
    }
}

/// The environment entries held in a buffer read from the process; none when
/// the read failed.
pub open spec fn environ_of(bytes: Option<Seq<u8>>) -> Seq<Seq<char>> {
    match bytes {
        Some(b) => env_strings(Seq::new((b.len() / 2) as nat, |i: int| le_u16(b, 2 * i))),
        None => Seq::empty(),
    }
}

/// Decodes the environment entries from the bytes read for them, if any.
pub fn get_proc_env(bytes: Option<Vec<u8>>) -> (r: Vec<String>)
    ensures
        r@.map_values(|x: String| x@) == environ_of(
            match bytes { Some(b) => Some(b@), None => None },
        ),
{
    match bytes {
        Some(b) => {
            let units = wide_units(b.as_slice());
            assert(units@ == Seq::new((b@.len() / 2) as nat, |i: int| le_u16(b@, 2 * i)));
            parse_environ(units.as_slice())
        },
        None => {
            let r: Vec<String> = Vec::new();
            assert(r@.map_values(|x: String| x@) == Seq::<Seq<char>>::empty());
            r
        },
    }
}

/// The command line read from the process as units, with a NUL appended so
/// that the argument splitter sees where it ends.
pub fn command_line_units(bytes: &[u8]) -> (r: Vec<u16>)
    ensures
        r@.len() == bytes@.len() / 2 + 1,
        forall|i: int| 0 <= i < bytes@.len() / 2 ==> r@[i] == le_u16(bytes@, 2 * i),
        r@.last() == 0,
{
    let mut r = wide_units(bytes);
    r.push(0);
    r
}

} // verus!
