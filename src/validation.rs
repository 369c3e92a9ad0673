use vstd::prelude::*;
use crate::error::TrackerError;

verus! {

pub open spec fn is_ascii_digit(c: char) -> bool {
    '0' <= c && c <= '9'
}

pub open spec fn all_digits(s: Seq<char>) -> bool {
    forall|i: int| 0 <= i < s.len() ==> is_ascii_digit(#[trigger] s[i])
}

pub open spec fn is_exponent_marker(c: char) -> bool {
    c == 'e' || c == 'E'
}

pub open spec fn has_exponent_marker(s: Seq<char>) -> bool {
    exists|i: int| 0 <= i < s.len() && is_exponent_marker(#[trigger] s[i])
}

/// `s` without one leading `+` or `-`.
pub open spec fn without_sign(s: Seq<char>) -> Seq<char> {
    if s.len() > 0 && (s[0] == '+' || s[0] == '-') {
        s.subrange(1, s.len() as int)
    } else {
        s
    }
}

/// Digits with at most one decimal point among them, and at least one digit.
pub open spec fn is_plain_decimal(u: Seq<char>) -> bool {
    &&& forall|i: int| 0 <= i < u.len() ==> is_ascii_digit(#[trigger] u[i]) || u[i] == '.'
    &&& forall|i: int, j: int| 0 <= i < u.len() && 0 <= j < u.len() && #[trigger] u[i] == '.'
        && #[trigger] u[j] == '.' ==> i == j
    &&& exists|i: int| 0 <= i < u.len() && is_ascii_digit(#[trigger] u[i])
}

/// A number in scientific notation: an optionally signed decimal, an `e` or
/// `E`, and an optionally signed run of digits (the syntax that a
/// floating-point parse accepts for text with an exponent).
pub open spec fn is_scientific(s: Seq<char>) -> bool {
    exists|k: int|
        0 <= k < s.len() && is_exponent_marker(#[trigger] s[k])
            && is_plain_decimal(without_sign(s.subrange(0, k)))
            && without_sign(s.subrange(k + 1, s.len() as int)).len() > 0
            && all_digits(without_sign(s.subrange(k + 1, s.len() as int)))
}

/// What a channel identifier may look like: decimal digits, or a number in
/// scientific notation.
pub open spec fn is_valid_channel_id(s: Seq<char>) -> bool {
    &&& s.len() > 0
    &&& if has_exponent_marker(s) {
        is_scientific(s)
    } else {
        all_digits(s)
    }
}

/// Every non-empty run of decimal digits is a valid channel identifier, and
/// the empty text is not.
pub proof fn lemma_digit_channel_ids_valid(s: Seq<char>)
    ensures
        s.len() > 0 && all_digits(s) ==> is_valid_channel_id(s),
        s.len() == 0 ==> !is_valid_channel_id(s),
{
    if s.len() > 0 && all_digits(s) {
        assert forall|i: int| 0 <= i < s.len() implies !is_exponent_marker(#[trigger] s[i]) by {
            assert(is_ascii_digit(s[i]));
        }
    }
}

/// Checks a bot token: it must not be empty.
pub fn validate_bot_token(token: &str) -> (r: Result<(), TrackerError>)
    ensures
        token@.len() > 0 <==> r is Ok,
        r is Err ==> r == Err::<(), TrackerError>(TrackerError::InvalidBotToken),
{
    if token.unicode_len() == 0 {
        return Err(TrackerError::InvalidBotToken);
    }
    Ok(())
}

fn chars_of(s: &str) -> (r: Vec<char>)
    ensures
        r@ == s@,
{
    let n = s.unicode_len();
    let mut v: Vec<char> = Vec::new();
    let mut i: usize = 0;
    while i < n
        invariant
            n == s@.len(),
            i <= n,
            v@ == s@.subrange(0, i as int),
        decreases n - i,
    {
        v.push(s.get_char(i));
        i = i + 1;
        assert(v@ =~= s@.subrange(0, i as int));
    }
    assert(v@ =~= s@);
    v
}

/// The position just past a leading sign of `v[from..to]`.
fn skip_sign(v: &Vec<char>, from: usize, to: usize) -> (r: usize)
    requires
        from <= to <= v@.len(),
    ensures
        from <= r <= to,
        v@.subrange(r as int, to as int) == without_sign(v@.subrange(from as int, to as int)),
{
    let ghost s = v@.subrange(from as int, to as int);
    if from < to && (v[from] == '+' || v[from] == '-') {
        assert(s[0] == v@[from as int]);
        assert(v@.subrange(from + 1, to as int) =~= s.subrange(1, s.len() as int));
        from + 1
    } else {
        from
    }
}

fn all_digits_in(v: &Vec<char>, from: usize, to: usize) -> (r: bool)
    requires
        from <= to <= v@.len(),
    ensures
        r == all_digits(v@.subrange(from as int, to as int)),
{
    let ghost s = v@.subrange(from as int, to as int);
    let mut i: usize = from;
    while i < to
        invariant
            from <= i <= to <= v@.len(),
            s == v@.subrange(from as int, to as int),
            forall|j: int| 0 <= j < i - from ==> is_ascii_digit(#[trigger] s[j]),
        decreases to - i,
    {
        let c = v[i];
        assert(s[i - from] == c);
        if !('0' <= c && c <= '9') {
            return false;
        }
        i = i + 1;
    }
    true
}

fn plain_decimal_in(v: &Vec<char>, from: usize, to: usize) -> (r: bool)
    requires
        from <= to <= v@.len(),
    ensures
        r == is_plain_decimal(v@.subrange(from as int, to as int)),
{
    let ghost u = v@.subrange(from as int, to as int);
    let mut dot: Option<usize> = None;
    let mut seen_digit = false;
    let mut i: usize = from;
    while i < to
        invariant
            from <= i <= to <= v@.len(),
            u == v@.subrange(from as int, to as int),
            forall|j: int| 0 <= j < i - from ==> is_ascii_digit(#[trigger] u[j]) || u[j] == '.',
            forall|j: int| 0 <= j < i - from && #[trigger] u[j] == '.' ==> dot == Some((j + from) as usize),
            dot is Some ==> from <= dot->0 < i && u[dot->0 - from] == '.',
            seen_digit <==> exists|j: int| 0 <= j < i - from && is_ascii_digit(#[trigger] u[j]),
        decreases to - i,
    {
        let c = v[i];
        assert(u[i - from] == c);
        if c == '.' {
            if dot.is_some() {
                assert(u[dot->0 - from] == '.');
                return false;
            }
            dot = Some(i);
        } else if '0' <= c && c <= '9' {
            seen_digit = true;
        } else {
            return false;
        }
        i = i + 1;
    }
    seen_digit
}

/// Checks a channel identifier: decimal digits, or (where it holds an `e` or
/// `E`) a number in scientific notation such as `1.39589530256487E+18`.
pub fn validate_channel_id(channel_id: &str) -> (r: Result<(), TrackerError>)
    ensures
        r is Ok <==> is_valid_channel_id(channel_id@),
        r is Err ==> r->Err_0 is InvalidChannelId && r->Err_0->InvalidChannelId_0@ == channel_id@,
{
    let v = chars_of(channel_id);
    let n = v.len();
    if n == 0 {
        return Err(TrackerError::InvalidChannelId(String::from_str(channel_id)));
    }
    let mut k: usize = 0;
    while k < n && !(v[k] == 'e' || v[k] == 'E')
        invariant
            n == v@.len(),
            k <= n,
            forall|j: int| 0 <= j < k ==> !is_exponent_marker(#[trigger] v@[j]),
        decreases n - k,
    {
        k = k + 1;
    }
    if k < n {
        assert(has_exponent_marker(v@));
        let m = skip_sign(&v, 0, k);
        let e = skip_sign(&v, k + 1, n);
        let ok = plain_decimal_in(&v, m, k) && e < n && all_digits_in(&v, e, n);
        proof {
            assert(v@.subrange(0, k as int) =~= channel_id@.subrange(0, k as int));
            if ok {
                assert(is_exponent_marker(channel_id@[k as int]));
            } else if is_scientific(channel_id@) {
                let k2 = choose|k2: int|
                    0 <= k2 < channel_id@.len() && is_exponent_marker(#[trigger] channel_id@[k2])
                        && is_plain_decimal(without_sign(channel_id@.subrange(0, k2)))
                        && without_sign(channel_id@.subrange(k2 + 1, channel_id@.len() as int)).len() > 0
                        && all_digits(without_sign(channel_id@.subrange(k2 + 1, channel_id@.len() as int)));
                let w = without_sign(channel_id@.subrange(0, k2));
                if k2 > k as int {
                    let pre = channel_id@.subrange(0, k2);
                    assert(pre[k as int] == channel_id@[k as int]);
                    if pre.len() > 0 && (pre[0] == '+' || pre[0] == '-') {
                        assert(k > 0);
                        assert(w[k - 1] == pre[k as int]);
                        assert(is_ascii_digit(w[k - 1]) || w[k - 1] == '.');
                    } else {
                        assert(w[k as int] == pre[k as int]);
                        assert(is_ascii_digit(w[k as int]) || w[k as int] == '.');
                    }
                }
                assert(k2 == k as int);
            }
        }
        if ok {
            Ok(())
        } else {
            Err(TrackerError::InvalidChannelId(String::from_str(channel_id)))
        }
    } else {
        assert(!has_exponent_marker(channel_id@));
        if all_digits_in(&v, 0, n) {
            assert(v@.subrange(0, n as int) =~= v@);
            Ok(())
        } else {
            assert(v@.subrange(0, n as int) =~= v@);
            Err(TrackerError::InvalidChannelId(String::from_str(channel_id)))
        }
    }
}

/// The outcome of checking a step number against the total.
pub open spec fn step_check(step: u32, total_steps: u32) -> Result<(), TrackerError> {
    if step == 0 {
        Err(TrackerError::InvalidStepNumber(step))
    } else if total_steps == 0 {
        Err(TrackerError::InvalidTotalSteps(total_steps))
    } else if step > total_steps {
        Err(TrackerError::StepNumberExceedsTotal(step, total_steps))
    } else {
        Ok(())
    }
}

/// Checks a step number against the total: both at least 1, the step no
/// greater than the total, tested in that order.
pub fn validate_step_number(step: u32, total_steps: u32) -> (r: Result<(), TrackerError>)
    ensures
        r == step_check(step, total_steps),
{
    if step == 0 {
        return Err(TrackerError::InvalidStepNumber(step));
    }
    if total_steps == 0 {
        return Err(TrackerError::InvalidTotalSteps(total_steps));
    }
    if step > total_steps {
        return Err(TrackerError::StepNumberExceedsTotal(step, total_steps));
    }
    Ok(())
}

} // verus!
