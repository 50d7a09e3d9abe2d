use vstd::prelude::*;

use vstd::string::StrSliceExecFns;

verus! {

/// `pat` stands at position `i` of `s`.
pub open spec fn matches_at(s: Seq<char>, pat: Seq<char>, i: int) -> bool {
    0 <= i && i + pat.len() <= s.len() && s.subrange(i, i + pat.len()) == pat
}

/// `pat` occurs contiguously somewhere in `s`.
pub open spec fn contains_seq(s: Seq<char>, pat: Seq<char>) -> bool {
    exists|i: int| matches_at(s, pat, i)
}

/// Plain substring search.
pub fn str_contains(s: &str, pat: &str) -> (r: bool)
    ensures
        r == contains_seq(s@, pat@),
{
    let n = s.unicode_len();
    let m = pat.unicode_len();
    if m > n {
        return false;
    }
    if m == 0 {
        proof {
            assert(s@.subrange(0, 0) =~= pat@);
            assert(matches_at(s@, pat@, 0));
        }
        return true;
    }
    let mut i: usize = 0;
    while i <= n - m
        invariant
            1 <= m <= n,
            n == s@.len(),
            m == pat@.len(),
            i <= n - m + 1,
            forall|j: int| 0 <= j < i ==> !matches_at(s@, pat@, j),
        decreases n - m + 1 - i,
    {
        let mut k: usize = 0;
        let mut matched = true;
        while k < m
            invariant
                i + m <= n,
                n == s@.len(),
                m == pat@.len(),
                k <= m,
                matched ==> forall|t: int| 0 <= t < k ==> s@[i + t] == pat@[t],
                !matched ==> !matches_at(s@, pat@, i as int),
            decreases m - k,
        {
            if s.get_char(i + k) != pat.get_char(k) {
                proof {
                    assert(s@.subrange(i as int, i as int + m as int)[k as int] == s@[i as int
                        + k as int]);
                }
                matched = false;
                k = m;
            } else {
                k = k + 1;
            }
        }
        if matched {
            proof {
                assert(s@.subrange(i as int, i as int + m as int) =~= pat@);
                assert(matches_at(s@, pat@, i as int));
            }
            return true;
        }
        i = i + 1;
    }
    proof {
        assert forall|j: int| !matches_at(s@, pat@, j) by {
            if 0 <= j && j + pat@.len() <= s@.len() {
                assert(j < i);
            }
        }
    }
    false
}

/// The numeric value of a decimal digit character.
pub open spec fn spec_digit(c: char) -> Option<u8> {
    match c {
        '0' => Some(0u8),
        '1' => Some(1u8),
        '2' => Some(2u8),
        '3' => Some(3u8),
        '4' => Some(4u8),
        '5' => Some(5u8),
        '6' => Some(6u8),
        '7' => Some(7u8),
        '8' => Some(8u8),
        '9' => Some(9u8),
        _ => None,
    }
}

fn digit(c: char) -> (r: Option<u8>)
    ensures
        r == spec_digit(c),
{
    match c {
        '0' => Some(0u8),
        '1' => Some(1u8),
        '2' => Some(2u8),
        '3' => Some(3u8),
        '4' => Some(4u8),
        '5' => Some(5u8),
        '6' => Some(6u8),
        '7' => Some(7u8),
        '8' => Some(8u8),
        '9' => Some(9u8),
        _ => None,
    }
}

/// The denoise strength named by a `denoise{N}x` marker starting at `i`,
/// if one starts there.
pub open spec fn denoise_tag_at(s: Seq<char>, i: int) -> Option<u8> {
    if 0 <= i && i + 9 <= s.len() && s[i] == 'd' && s[i + 1] == 'e' && s[i + 2] == 'n' && s[i + 3]
        == 'o' && s[i + 4] == 'i' && s[i + 5] == 's' && s[i + 6] == 'e' && s[i + 8] == 'x' {
        spec_digit(s[i + 7])
    } else {
        None
    }
}

/// The strength named by the leftmost `denoise{N}x` marker at or after `i`.
pub open spec fn find_denoise_from(s: Seq<char>, i: int) -> Option<u8>
    decreases s.len() - i when 0 <= i
{
    if i + 9 > s.len() {
        None
    } else if denoise_tag_at(s, i) is Some {
        denoise_tag_at(s, i)
    } else {
        find_denoise_from(s, i + 1)
    }
}

fn find_denoise(s: &str) -> (r: Option<u8>)
    ensures
        r == find_denoise_from(s@, 0),
{
    let n = s.unicode_len();
    if n < 9 {
        return None;
    }
    let mut i: usize = 0;
    while i <= n - 9
        invariant
            9 <= n,
            i <= n - 9 + 1,
            n == s@.len(),
            find_denoise_from(s@, 0) == find_denoise_from(s@, i as int),
        decreases n - i,
    {
        if s.get_char(i) == 'd' && s.get_char(i + 1) == 'e' && s.get_char(i + 2) == 'n'
            && s.get_char(i + 3) == 'o' && s.get_char(i + 4) == 'i' && s.get_char(i + 5) == 's'
            && s.get_char(i + 6) == 'e' && s.get_char(i + 8) == 'x' {
            let d = digit(s.get_char(i + 7));
            if d.is_some() {
                proof {
                    assert(denoise_tag_at(s@, i as int) == d);
                }
                return d;
            }
        }
        proof {
            assert(denoise_tag_at(s@, i as int) is None);
        }
        i = i + 1;
    }
    None
}

/// The scale named by an `up{N}x` marker starting at `i`, if one starts
/// there.
pub open spec fn up_tag_at(s: Seq<char>, i: int) -> Option<u8> {
    if 0 <= i && i + 4 <= s.len() && s[i] == 'u' && s[i + 1] == 'p' && s[i + 3] == 'x' {
        spec_digit(s[i + 2])
    } else {
        None
    }
}

/// The scale named by the leftmost `up{N}x` marker at or after `i`.
pub open spec fn find_up_from(s: Seq<char>, i: int) -> Option<u8>
    decreases s.len() - i when 0 <= i
{
    if i + 4 > s.len() {
        None
    } else if up_tag_at(s, i) is Some {
        up_tag_at(s, i)
    } else {
        find_up_from(s, i + 1)
    }
}

fn find_up(s: &str) -> (r: Option<u8>)
    ensures
        r == find_up_from(s@, 0),
{
    let n = s.unicode_len();
    if n < 4 {
        return None;
    }
    let mut i: usize = 0;
    while i <= n - 4
        invariant
            4 <= n,
            i <= n - 4 + 1,
            n == s@.len(),
            find_up_from(s@, 0) == find_up_from(s@, i as int),
        decreases n - i,
    {
        if s.get_char(i) == 'u' && s.get_char(i + 1) == 'p' && s.get_char(i + 3) == 'x' {
            let d = digit(s.get_char(i + 2));
            if d.is_some() {
                proof {
                    assert(up_tag_at(s@, i as int) == d);
                }
                return d;
            }
        }
        proof {
            assert(up_tag_at(s@, i as int) is None);
        }
        i = i + 1;
    }
    None
}

/// The denoise strength a parameter file's name announces: a
/// `no-denoise` marker means 0, `conservative` means -1, and a
/// `denoise{N}x` marker means N; a name with none of the markers
/// announces nothing.
pub open spec fn inferred_noise(name: Seq<char>) -> Option<i32> {
    if contains_seq(name, "no-denoise"@) {
        Some(0i32)
    } else if contains_seq(name, "conservative"@) {
        Some(-1i32)
    } else {
        match find_denoise_from(name, 0) {
            Some(d) => Some(d as i32),
            None => None,
        }
    }
}

/// The scale a parameter file's name announces through an `up{N}x`
/// marker, if any.
pub open spec fn inferred_scale(name: Seq<char>) -> Option<i32> {
    match find_up_from(name, 0) {
        Some(d) => Some(d as i32),
        None => None,
    }
}

/// Reads the denoise strength off a parameter file's name.
pub fn infer_noise(name: &str) -> (r: Option<i32>)
    ensures
        r == inferred_noise(name@),
{
    if str_contains(name, "no-denoise") {
        Some(0)
    } else if str_contains(name, "conservative") {
        Some(-1)
    } else {
        match find_denoise(name) {
            Some(d) => Some(d as i32),
            None => None,
        }
    }
}

/// Reads the scale off a parameter file's name.
pub fn infer_scale(name: &str) -> (r: Option<i32>)
    ensures
        r == inferred_scale(name@),
{
    match find_up(name) {
        Some(d) => Some(d as i32),
        None => None,
    }
}

} // verus!
