use vstd::prelude::*;

verus! {

/// ASCII whitespace as trimmed around a process-lookup's output.
pub open spec fn is_ascii_space(b: u8) -> bool {
    b == 32 || b == 9 || b == 10 || b == 13
}

/// An ASCII decimal digit.
pub open spec fn is_ascii_digit(b: u8) -> bool {
    48 <= b && b <= 57
}

/// Every byte of the sequence is an ASCII decimal digit.
pub open spec fn all_digits(s: Seq<u8>) -> bool {
    forall|i: int| 0 <= i < s.len() ==> is_ascii_digit(#[trigger] s[i])
}

/// The sequence with its leading ASCII whitespace removed.
pub open spec fn trim_front(s: Seq<u8>) -> Seq<u8>
    decreases s.len(),
{
    if s.len() == 0 {
        s
    } else if is_ascii_space(s[0]) {
        trim_front(s.drop_first())
    } else {
        s
    }
}

/// The sequence with its trailing ASCII whitespace removed.
pub open spec fn trim_back(s: Seq<u8>) -> Seq<u8>
    decreases s.len(),
{
    if s.len() == 0 {
        s
    } else if is_ascii_space(s.last()) {
        trim_back(s.drop_last())
    } else {
        s
    }
}

/// The sequence with ASCII whitespace removed at both ends.
pub open spec fn trimmed(s: Seq<u8>) -> Seq<u8> {
    trim_back(trim_front(s))
}

/// The value of a run of ASCII decimal digits, most significant first.
pub open spec fn digits_value(s: Seq<u8>) -> int
    decreases s.len(),
{
    if s.len() == 0 {
        0
    } else {
        digits_value(s.drop_last()) * 10 + s.last() - 48
    }
}

/// The process id a lookup's raw output denotes: after trimming ASCII
/// whitespace at both ends, a non-empty run of decimal digits whose value
/// fits the id type; anything else denotes none.
pub open spec fn pid_of(s: Seq<u8>) -> Option<u32> {
    let t = trimmed(s);
    if t.len() > 0 && all_digits(t) && digits_value(t) <= u32::MAX {
        Some(digits_value(t) as u32)
    } else {
        None
    }
}

proof fn lemma_trim_front_at(s: Seq<u8>, lo: int)
    requires
        0 <= lo <= s.len(),
        forall|j: int| 0 <= j < lo ==> is_ascii_space(#[trigger] s[j]),
        lo < s.len() ==> !is_ascii_space(s[lo]),
    ensures
        trim_front(s) =~= s.subrange(lo, s.len() as int),
    decreases lo,
{
    if lo == 0 {
        assert(s.subrange(0, s.len() as int) =~= s);
    } else {
        lemma_trim_front_at(s.drop_first(), lo - 1);
        assert(s.drop_first().subrange(lo - 1, s.len() - 1) =~= s.subrange(lo, s.len() as int));
    }
}

proof fn lemma_trim_back_at(s: Seq<u8>, hi: int)
    requires
        0 <= hi <= s.len(),
        forall|j: int| hi <= j < s.len() ==> is_ascii_space(#[trigger] s[j]),
        hi > 0 ==> !is_ascii_space(s[hi - 1]),
    ensures
        trim_back(s) =~= s.subrange(0, hi),
    decreases s.len() - hi,
{
    if hi == s.len() {
        assert(s.subrange(0, hi) =~= s);
    } else {
        assert(is_ascii_space(s.last()));
        lemma_trim_back_at(s.drop_last(), hi);
        assert(s.drop_last().subrange(0, hi) =~= s.subrange(0, hi));
    }
}

proof fn lemma_digits_value_nonneg(s: Seq<u8>)
    requires
        all_digits(s),
    ensures
        digits_value(s) >= 0,
    decreases s.len(),
{
    if s.len() > 0 {
        assert(all_digits(s.drop_last()));
        lemma_digits_value_nonneg(s.drop_last());
    }
}

proof fn lemma_digits_value_monotonic(s: Seq<u8>, i: int)
    requires
        all_digits(s),
        0 <= i <= s.len(),
    ensures
        digits_value(s.subrange(0, i)) <= digits_value(s),
    decreases s.len() - i,
{
    if i == s.len() {
        assert(s.subrange(0, i) =~= s);
    } else {
        let cur = s.subrange(0, i + 1);
        assert(cur.drop_last() =~= s.subrange(0, i));
        assert(cur.last() == s[i]);
        assert(all_digits(s.subrange(0, i)));
        lemma_digits_value_nonneg(s.subrange(0, i));
        assert(digits_value(cur) == digits_value(s.subrange(0, i)) * 10 + s[i] - 48);
        lemma_digits_value_monotonic(s, i + 1);
    }
}

/// Parses the decimal process id out of a process-name lookup's raw output:
/// ASCII whitespace around a run of digits. Returns nothing when the output
/// is empty, holds any other byte, or names a value too large for the id
/// type.
pub fn parse_pid(bytes: &Vec<u8>) -> (r: Option<u32>)
    ensures
        r == pid_of(bytes@),
{
    let n = bytes.len();
    let mut lo: usize = 0;
    while lo < n && (bytes[lo] == 32 || bytes[lo] == 9 || bytes[lo] == 10 || bytes[lo] == 13)
        invariant
            n == bytes@.len(),
            lo <= n,
            forall|j: int| 0 <= j < lo ==> is_ascii_space(#[trigger] bytes@[j]),
        decreases n - lo,
    {
        lo = lo + 1;
    }
    if lo == n {
        proof {
            lemma_trim_front_at(bytes@, n as int);
            assert(trim_front(bytes@) =~= Seq::<u8>::empty());
            assert(trimmed(bytes@).len() == 0);
        }
        return None;
    }
    let mut hi: usize = n;
    while hi > lo && (bytes[hi - 1] == 32 || bytes[hi - 1] == 9 || bytes[hi - 1] == 10 || bytes[hi
        - 1] == 13)
        invariant
            n == bytes@.len(),
            lo <= hi <= n,
            forall|j: int| hi <= j < n ==> is_ascii_space(#[trigger] bytes@[j]),
        decreases hi,
    {
        hi = hi - 1;
    }
    assert(hi > lo);
    let ghost t = bytes@.subrange(lo as int, hi as int);
    proof {
        lemma_trim_front_at(bytes@, lo as int);
        let t1 = bytes@.subrange(lo as int, n as int);
        lemma_trim_back_at(t1, hi - lo);
        assert(t1.subrange(0, hi - lo) =~= t);
        assert(trimmed(bytes@) == t);
    }
    let mut acc: u64 = 0;
    let mut i: usize = lo;
    while i < hi
        invariant
            n == bytes@.len(),
            lo <= i <= hi <= n,
            lo < hi,
            t == bytes@.subrange(lo as int, hi as int),
            trimmed(bytes@) == t,
            forall|j: int| lo <= j < i ==> is_ascii_digit(#[trigger] bytes@[j]),
            acc as int == digits_value(bytes@.subrange(lo as int, i as int)),
            acc <= u32::MAX,
        decreases hi - i,
    {
        let b = bytes[i];
        if !(48 <= b && b <= 57) {
            proof {
                assert(t[i - lo] == bytes@[i as int]);
                assert(!all_digits(t));
            }
            return None;
        }
        let d: u64 = (b - 48) as u64;
        let new_acc: u64 = acc * 10 + d;
        proof {
            let prev = bytes@.subrange(lo as int, i as int);
            let cur = bytes@.subrange(lo as int, i as int + 1);
            assert(cur.drop_last() =~= prev);
            assert(cur.last() == bytes@[i as int]);
            assert(digits_value(cur) == digits_value(prev) * 10 + bytes@[i as int] - 48);
        }
        if new_acc > u32::MAX as u64 {
            proof {
                if all_digits(t) {
                    let cur = bytes@.subrange(lo as int, i as int + 1);
                    assert(t.subrange(0, i + 1 - lo) =~= cur);
                    lemma_digits_value_monotonic(t, i + 1 - lo);
                    assert(digits_value(t) > u32::MAX);
                }
            }
            return None;
        }
        acc = new_acc;
        i = i + 1;
    }
    proof {
        assert(bytes@.subrange(lo as int, i as int) == t);
        assert forall|j: int| 0 <= j < t.len() implies is_ascii_digit(#[trigger] t[j]) by {
            assert(t[j] == bytes@[lo + j]);
        }
    }
    Some(acc as u32)
}

} // verus!
