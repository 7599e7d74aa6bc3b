//! The control plane: what each request does to the playback state and what
//! it answers.

use vstd::prelude::*;
use crate::playback::{Command, PlaybackState, PlaybackView, MAX_VOLUME};

verus! {

/// The answer to a control request.
#[derive(Clone, Copy, Debug, PartialEq, Eq, Structural)]
pub enum Reply {
    VolumeChanged,
    Paused,
    Resumed,
    /// The query had no `v`.
    VolumeMissing,
    /// `v` was not a non-negative decimal integer that fits in 32 bits.
    VolumeNotInteger,
    /// `v` was an integer above 100.
    VolumeOutOfRange,
}

impl Reply {
    /// The body sent back for this answer.
    pub open spec fn text(self) -> Seq<char> {
        match self {
            Reply::VolumeChanged => "Volume changed successfully"@,
            Reply::Paused => "Paused successfully"@,
            Reply::Resumed => "Resumed successfully"@,
            Reply::VolumeMissing => "You must specify the volume"@,
            Reply::VolumeNotInteger => "Volume must be an integer between 1 and 100"@,
            Reply::VolumeOutOfRange => "Volume must be between 0 and 100"@,
        }
    }

    pub open spec fn spec_is_success(self) -> bool {
        match self {
            Reply::VolumeChanged | Reply::Paused | Reply::Resumed => true,
            _ => false,
        }
    }

    pub fn body(&self) -> (r: &'static str)
        ensures
            r@ == self.text(),
    {
        match self {
            Reply::VolumeChanged => "Volume changed successfully",
            Reply::Paused => "Paused successfully",
            Reply::Resumed => "Resumed successfully",
            Reply::VolumeMissing => "You must specify the volume",
            Reply::VolumeNotInteger => "Volume must be an integer between 1 and 100",
            Reply::VolumeOutOfRange => "Volume must be between 0 and 100",
        }
    }

    /// Whether the request took effect.
    pub fn is_success(&self) -> (r: bool)
        ensures
            r == self.spec_is_success(),
    {
        match self {
            Reply::VolumeChanged | Reply::Paused | Reply::Resumed => true,
            _ => false,
        }
    }
}

pub open spec fn is_decimal_digit(c: char) -> bool {
    '0' <= c && c <= '9'
}

pub open spec fn digit_value(c: char) -> int {
    (c as int) - ('0' as int)
}

/// The number that a run of decimal digits writes, most significant first.
pub open spec fn decimal_value(d: Seq<char>) -> int
    decreases d.len(),
{
    if d.len() == 0 {
        0
    } else {
        decimal_value(d.drop_last()) * 10 + digit_value(d.last())
    }
}

/// The text as an unsigned 32-bit integer: an optional `+`, then one or more
/// ASCII digits whose value fits in 32 bits. Anything else, whitespace and a
/// `-` included, is no such integer.
pub open spec fn parse_u32(s: Seq<char>) -> Option<u32> {
    let d = if s.len() > 0 && s[0] == '+' {
        s.drop_first()
    } else {
        s
    };
    if d.len() > 0 && (forall|i: int| 0 <= i < d.len() ==> is_decimal_digit(#[trigger] d[i]))
        && decimal_value(d) <= u32::MAX {
        Some(decimal_value(d) as u32)
    } else {
        None
    }
}

/// Relies on `str::parse::<u32>` (`u32`'s `FromStr`): it accepts an optional
/// `+` followed by ASCII digits, and fails on anything else and on overflow.
#[verifier::external_body]
fn parse_decimal_u32(s: &str) -> (r: Option<u32>)
    ensures
        r == parse_u32(s@),
{
    s.parse::<u32>().ok()
}

/// The value that the query gives `key`: the last pair with that key wins, as
/// when the pairs are inserted into a map in order.
pub open spec fn query_lookup(pairs: Seq<(String, String)>, key: Seq<char>) -> Option<Seq<char>>
    decreases pairs.len(),
{
    if pairs.len() == 0 {
        None
    } else if pairs.last().0@ == key {
        Some(pairs.last().1@)
    } else {
        query_lookup(pairs.drop_last(), key)
    }
}

/// Whether two texts hold the same characters.
pub fn same_text(a: &str, b: &str) -> (r: bool)
    ensures
        r == (a@ == b@),
{
    let n = a.unicode_len();
    if n != b.unicode_len() {
        return false;
    }
    let mut i: usize = 0;
    while i < n
        invariant
            n == a@.len(),
            n == b@.len(),
            i <= n,
            forall|j: int| 0 <= j < i ==> a@[j] == b@[j],
        decreases n - i,
    {
        if a.get_char(i) != b.get_char(i) {
            return false;
        }
        i = i + 1;
    }
    assert(a@ =~= b@);
    true
}

/// Looks `key` up in the query's pairs; the last pair with that key wins.
pub fn query_value<'a>(pairs: &'a Vec<(String, String)>, key: &str) -> (r: Option<&'a String>)
    ensures
        match query_lookup(pairs@, key@) {
            None => r is None,
            Some(v) => r matches Some(s) && s@ == v,
        },
{
    let mut i: usize = pairs.len();
    assert(pairs@.subrange(0, i as int) =~= pairs@);
    while i > 0
        invariant
            i <= pairs@.len(),
            query_lookup(pairs@, key@) == query_lookup(pairs@.subrange(0, i as int), key@),
        decreases i,
    {
        let ghost before = pairs@.subrange(0, i as int);
        assert(before.drop_last() =~= pairs@.subrange(0, i - 1));
        let pair = &pairs[i - 1];
        if same_text(pair.0.as_str(), key) {
            return Some(&pair.1);
        }
        i = i - 1;
    }
    None
}

/// What a volume request asks for, given the value of its `v`, if any.
pub open spec fn volume_outcome(v: Option<Seq<char>>) -> Result<u32, Reply> {
    match v {
        None => Err(Reply::VolumeMissing),
        Some(s) => match parse_u32(s) {
            None => Err(Reply::VolumeNotInteger),
            Some(n) => if n <= MAX_VOLUME {
                Ok(n)
            } else {
                Err(Reply::VolumeOutOfRange)
            },
        },
    }
}

/// The state after a volume request with these query pairs.
pub open spec fn after_volume_request(s: PlaybackView, pairs: Seq<(String, String)>) -> PlaybackView {
    match volume_outcome(query_lookup(pairs, "v"@)) {
        Ok(n) => s.after(Command::SetVolume(n)),
        Err(_) => s,
    }
}

/// Reads the requested volume, in percent, from the query's pairs.
pub fn requested_volume(pairs: &Vec<(String, String)>) -> (r: Result<u32, Reply>)
    ensures
        r == volume_outcome(query_lookup(pairs@, "v"@)),
{
    match query_value(pairs, "v") {
        None => Err(Reply::VolumeMissing),
        Some(s) => match parse_decimal_u32(s.as_str()) {
            None => Err(Reply::VolumeNotInteger),
            Some(n) => if n <= MAX_VOLUME {
                Ok(n)
            } else {
                Err(Reply::VolumeOutOfRange)
            },
        },
    }
}

/// Handles `PUT /volume`: sets the gain to `v` percent when `v` is an integer
/// in `[0, 100]`, and otherwise leaves the state alone and says why.
pub fn change_volume(state: &mut PlaybackState, pairs: &Vec<(String, String)>) -> (r: Reply)
    ensures
        final(state)@ == after_volume_request(old(state)@, pairs@),
        match volume_outcome(query_lookup(pairs@, "v"@)) {
            Ok(_) => r == Reply::VolumeChanged,
            Err(e) => r == e,
        },
{
    match requested_volume(pairs) {
        Ok(n) => {
            state.apply(Command::SetVolume(n));
            Reply::VolumeChanged
        },
        Err(e) => e,
    }
}

/// A volume request that succeeds sets the gain to its `v`, which lies in
/// `[0, 100]`; one whose `v` is an integer above 100 is refused as out of
/// range and leaves the gain, and the whole state, as it was.
pub proof fn lemma_volume_clamp(s: PlaybackView, pairs: Seq<(String, String)>)
    requires
        s.wf(),
    ensures
        after_volume_request(s, pairs).wf(),
        volume_outcome(query_lookup(pairs, "v"@)) matches Ok(n) ==> n <= MAX_VOLUME
            && after_volume_request(s, pairs).volume == n,
        query_lookup(pairs, "v"@) matches Some(t) ==> (parse_u32(t) matches Some(n) && n
            > MAX_VOLUME ==> volume_outcome(query_lookup(pairs, "v"@)) == Err::<u32, Reply>(
            Reply::VolumeOutOfRange,
        ) && after_volume_request(s, pairs) == s),
{
}

/// Handles `PUT /pause`.
pub fn pause(state: &mut PlaybackState) -> (r: Reply)
    ensures
        r == Reply::Paused,
        final(state)@ == old(state)@.after(Command::Pause),
{
    state.apply(Command::Pause);
    Reply::Paused
}

/// Handles `PUT /resume`.
pub fn resume(state: &mut PlaybackState) -> (r: Reply)
    ensures
        r == Reply::Resumed,
        final(state)@ == old(state)@.after(Command::Resume),
{
    state.apply(Command::Resume);
    Reply::Resumed
}

} // verus!
