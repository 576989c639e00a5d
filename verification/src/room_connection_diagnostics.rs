//! Sanitized connection lifecycle descriptions for relay diagnostics.
//!
//! These helpers keep transport-close reporting out of the room mutation
//! code while avoiding raw subject ids, tokens, or input payloads in
//! operator logs.

use vstd::prelude::*;
use vstd::string::StrSliceExecFns;
use crate::player_slot::{PlayerRole, PlayerRuntimeState, PlayerStatus};
use crate::text::string_from_chars;
use crate::ids::ConnectionId;
use crate::player_slot::PlayerSlot;
use crate::room::{connection_position, NetplayRoom};
use crate::room_input_connection_ops::input_connection_position;

verus! {

/// Room lifecycle status.
#[derive(Clone, Copy, Debug, PartialEq, Eq, Structural)]
pub enum RoomStatus {
    /// The host is waiting for a guest.
    WaitingForGuest,
    /// Players are exchanging compatibility fingerprints.
    CheckingCompatibility,
    /// Sync state is being transferred.
    SyncingState,
    /// Every player is ready.
    Ready,
    /// A deterministic start is scheduled.
    StartScheduled,
    /// Gameplay is running.
    Playing,
    /// Gameplay is paused.
    Paused,
    /// A state resync is in progress.
    RepairingState,
    /// A player is reconnecting.
    Recovering,
    /// The room is closed.
    Closed,
}

/// Longest reason kept in a diagnostic, in characters.
pub const MAX_REASON_CHARS: usize = 160;

/// Text of a player role.
pub open spec fn role_text(role: PlayerRole) -> Seq<char> {
    match role {
        PlayerRole::Host => "host"@,
        PlayerRole::Guest => "guest"@,
    }
}

/// Label of a player role.
pub fn role_label(role: PlayerRole) -> (label: &'static str)
    ensures
        label@ == role_text(role),
{
    match role {
        PlayerRole::Host => "host",
        PlayerRole::Guest => "guest",
    }
}

/// Text of a room status.
pub open spec fn room_status_text(status: RoomStatus) -> Seq<char> {
    match status {
        RoomStatus::WaitingForGuest => "waitingForGuest"@,
        RoomStatus::CheckingCompatibility => "checkingCompatibility"@,
        RoomStatus::SyncingState => "syncingState"@,
        RoomStatus::Ready => "ready"@,
        RoomStatus::StartScheduled => "startScheduled"@,
        RoomStatus::Playing => "playing"@,
        RoomStatus::Paused => "paused"@,
        RoomStatus::RepairingState => "repairingState"@,
        RoomStatus::Recovering => "recovering"@,
        RoomStatus::Closed => "closed"@,
    }
}

/// Label of a room status.
pub fn room_status_label(status: RoomStatus) -> (label: &'static str)
    ensures
        label@ == room_status_text(status),
{
    match status {
        RoomStatus::WaitingForGuest => "waitingForGuest",
        RoomStatus::CheckingCompatibility => "checkingCompatibility",
        RoomStatus::SyncingState => "syncingState",
        RoomStatus::Ready => "ready",
        RoomStatus::StartScheduled => "startScheduled",
        RoomStatus::Playing => "playing",
        RoomStatus::Paused => "paused",
        RoomStatus::RepairingState => "repairingState",
        RoomStatus::Recovering => "recovering",
        RoomStatus::Closed => "closed",
    }
}

/// Text of a player status.
pub open spec fn player_status_text(status: PlayerStatus) -> Seq<char> {
    match status {
        PlayerStatus::Empty => "empty"@,
        PlayerStatus::Connected => "connected"@,
        PlayerStatus::CheckingCompatibility => "checkingCompatibility"@,
        PlayerStatus::CompatibilityFailed => "compatibilityFailed"@,
        PlayerStatus::SyncingState => "syncingState"@,
        PlayerStatus::Ready => "ready"@,
        PlayerStatus::Playing => "playing"@,
        PlayerStatus::Paused => "paused"@,
        PlayerStatus::Reconnecting => "reconnecting"@,
        PlayerStatus::RecoveryExpired => "recoveryExpired"@,
        PlayerStatus::Disconnected => "disconnected"@,
    }
}

/// Label of a player status.
pub fn player_status_label(status: PlayerStatus) -> (label: &'static str)
    ensures
        label@ == player_status_text(status),
{
    match status {
        PlayerStatus::Empty => "empty",
        PlayerStatus::Connected => "connected",
        PlayerStatus::CheckingCompatibility => "checkingCompatibility",
        PlayerStatus::CompatibilityFailed => "compatibilityFailed",
        PlayerStatus::SyncingState => "syncingState",
        PlayerStatus::Ready => "ready",
        PlayerStatus::Playing => "playing",
        PlayerStatus::Paused => "paused",
        PlayerStatus::Reconnecting => "reconnecting",
        PlayerStatus::RecoveryExpired => "recoveryExpired",
        PlayerStatus::Disconnected => "disconnected",
    }
}

/// Text of a slot runtime state.
pub open spec fn runtime_state_text(state: PlayerRuntimeState) -> Seq<char> {
    match state {
        PlayerRuntimeState::Empty => "empty"@,
        PlayerRuntimeState::Connected => "connected"@,
        PlayerRuntimeState::CheckingCompatibility => "checkingCompatibility"@,
        PlayerRuntimeState::Syncing => "syncing"@,
        PlayerRuntimeState::Ready => "ready"@,
        PlayerRuntimeState::DeterministicReady => "deterministicReady"@,
        PlayerRuntimeState::Playing => "playing"@,
        PlayerRuntimeState::Pausing => "pausing"@,
        PlayerRuntimeState::Paused => "paused"@,
        PlayerRuntimeState::Reconnecting => "reconnecting"@,
        PlayerRuntimeState::Stale => "stale"@,
        PlayerRuntimeState::Disconnected => "disconnected"@,
        PlayerRuntimeState::RecoveryExpired => "recoveryExpired"@,
    }
}

/// Label of a slot runtime state.
pub fn runtime_state_label(state: PlayerRuntimeState) -> (label: &'static str)
    ensures
        label@ == runtime_state_text(state),
{
    match state {
        PlayerRuntimeState::Empty => "empty",
        PlayerRuntimeState::Connected => "connected",
        PlayerRuntimeState::CheckingCompatibility => "checkingCompatibility",
        PlayerRuntimeState::Syncing => "syncing",
        PlayerRuntimeState::Ready => "ready",
        PlayerRuntimeState::DeterministicReady => "deterministicReady",
        PlayerRuntimeState::Playing => "playing",
        PlayerRuntimeState::Pausing => "pausing",
        PlayerRuntimeState::Paused => "paused",
        PlayerRuntimeState::Reconnecting => "reconnecting",
        PlayerRuntimeState::Stale => "stale",
        PlayerRuntimeState::Disconnected => "disconnected",
        PlayerRuntimeState::RecoveryExpired => "recoveryExpired",
    }
}

/// Client families a subject key may name.
#[derive(Clone, Copy, Debug, PartialEq, Eq, Structural)]
pub enum ClientKind {
    /// An Android client.
    Android,
    /// A desktop client.
    Desktop,
    /// Anything else, including keys without a prefix.
    Unknown,
}

/// Index of the first `':'` in `s`, if any.
pub open spec fn first_colon(s: Seq<char>) -> Option<int>
    decreases s.len(),
{
    if s.len() == 0 {
        None
    } else {
        match first_colon(s.drop_last()) {
            Some(i) => Some(i),
            None => if s.last() == ':' { Some(s.len() - 1) } else { None },
        }
    }
}

/// The subject key's prefix before its first colon, when it has one.
pub open spec fn subject_prefix(s: Seq<char>) -> Option<Seq<char>> {
    match first_colon(s) {
        Some(i) => Some(s.subrange(0, i)),
        None => None,
    }
}

/// Client family named by a subject key such as `android:...`.
pub open spec fn client_kind_of(subject_key: Option<Seq<char>>) -> ClientKind {
    match subject_key {
        None => ClientKind::Unknown,
        Some(key) => match subject_prefix(key) {
            Some(p) => if p == seq!['a', 'n', 'd', 'r', 'o', 'i', 'd'] {
                ClientKind::Android
            } else if p == seq!['d', 'e', 's', 'k', 't', 'o', 'p'] {
                ClientKind::Desktop
            } else {
                ClientKind::Unknown
            },
            None => ClientKind::Unknown,
        },
    }
}

fn chars_equal(a: &Vec<char>, b: &[char]) -> (r: bool)
    ensures
        r == (a@ == b@),
{
    if a.len() != b.len() {
        return false;
    }
    let mut i: usize = 0;
    while i < a.len()
        invariant
            a@.len() == b@.len(),
            i <= a@.len(),
            forall|j: int| 0 <= j < i ==> a@[j] == b@[j],
        decreases a@.len() - i,
    {
        if a[i] != b[i] {
            return false;
        }
        i = i + 1;
    }
    assert(a@ == b@);
    true
}

/// Classifies a subject key by its prefix before the first colon.
pub fn client_kind(subject_key: Option<&str>) -> (k: ClientKind)
    ensures
        k == client_kind_of(match subject_key { Some(s) => Some(s@), None => None }),
{
    let key = match subject_key {
        None => return ClientKind::Unknown,
        Some(key) => key,
    };
    let n = key.unicode_len();
    let mut prefix: Vec<char> = Vec::new();
    let mut i: usize = 0;
    while i < n
        invariant
            subject_key == Some(key),
            n == key@.len(),
            i <= n,
            first_colon(key@.subrange(0, i as int)) is None,
            prefix@ == key@.subrange(0, i as int),
        decreases n - i,
    {
        let c = key.get_char(i);
        proof {
            let next = key@.subrange(0, i + 1);
            assert(next.drop_last() == key@.subrange(0, i as int));
            assert(next.last() == c);
        }
        if c == ':' {
            proof {
                lemma_first_colon_extends(key@, i as int);
            }
            let android: [char; 7] = ['a', 'n', 'd', 'r', 'o', 'i', 'd'];
            let desktop: [char; 7] = ['d', 'e', 's', 'k', 't', 'o', 'p'];
            let android_chars = android.as_slice();
            let desktop_chars = desktop.as_slice();
            assert(android_chars@ == seq!['a', 'n', 'd', 'r', 'o', 'i', 'd']);
            assert(desktop_chars@ == seq!['d', 'e', 's', 'k', 't', 'o', 'p']);
            assert(subject_prefix(key@) == Some(prefix@));
            if chars_equal(&prefix, android_chars) {
                return ClientKind::Android;
            }
            if chars_equal(&prefix, desktop_chars) {
                return ClientKind::Desktop;
            }
            return ClientKind::Unknown;
        }
        prefix.push(c);
        i = i + 1;
    }
    assert(key@.subrange(0, n as int) == key@);
    ClientKind::Unknown
}

proof fn lemma_first_colon_extends(s: Seq<char>, i: int)
    requires
        0 <= i < s.len(),
        first_colon(s.subrange(0, i)) is None,
        s[i] == ':',
    ensures
        first_colon(s) == Some(i),
    decreases s.len(),
{
    let next = s.subrange(0, i + 1);
    assert(next.drop_last() == s.subrange(0, i));
    lemma_first_colon_prefix(s, i + 1);
}

proof fn lemma_first_colon_prefix(s: Seq<char>, k: int)
    requires
        0 <= k <= s.len(),
        first_colon(s.subrange(0, k)) is Some,
    ensures
        first_colon(s) == first_colon(s.subrange(0, k)),
    decreases s.len() - k,
{
    if k < s.len() {
        let next = s.subrange(0, k + 1);
        assert(next.drop_last() == s.subrange(0, k));
        lemma_first_colon_prefix(s, k + 1);
    } else {
        assert(s.subrange(0, k) == s);
    }
}

/// Label of a client family.
pub fn client_kind_label(subject_key: Option<&str>) -> (label: &'static str)
    ensures
        label@ == (match client_kind_of(match subject_key { Some(s) => Some(s@), None => None }) {
            ClientKind::Android => "android"@,
            ClientKind::Desktop => "desktop"@,
            ClientKind::Unknown => "unknown"@,
        }),
{
    match client_kind(subject_key) {
        ClientKind::Android => "android",
        ClientKind::Desktop => "desktop",
        ClientKind::Unknown => "unknown",
    }
}

/// Whitespace as `char::is_whitespace` defines it (Unicode `White_Space`).
pub open spec fn is_unicode_whitespace(c: char) -> bool {
    ||| c == ' ' || c == '\t' || c == '\n' || c == '\x0B' || c == '\x0C' || c == '\r'
    ||| c == '\u{85}' || c == '\u{A0}' || c == '\u{1680}'
    ||| ('\u{2000}' <= c && c <= '\u{200A}')
    ||| c == '\u{2028}' || c == '\u{2029}' || c == '\u{202F}' || c == '\u{205F}' || c == '\u{3000}'
}

fn whitespace(c: char) -> (b: bool)
    ensures
        b == is_unicode_whitespace(c),
{
    c == ' ' || c == '\t' || c == '\n' || c == '\x0B' || c == '\x0C' || c == '\r'
        || c == '\u{85}' || c == '\u{A0}' || c == '\u{1680}'
        || ('\u{2000}' <= c && c <= '\u{200A}')
        || c == '\u{2028}' || c == '\u{2029}' || c == '\u{202F}' || c == '\u{205F}' || c == '\u{3000}'
}

/// The words of `s` (maximal runs without whitespace) joined by single
/// spaces, together with whether whitespace followed the last word.
pub open spec fn squeeze(s: Seq<char>) -> (Seq<char>, bool)
    decreases s.len(),
{
    if s.len() == 0 {
        (Seq::empty(), false)
    } else {
        let (out, gap) = squeeze(s.drop_last());
        let c = s.last();
        if is_unicode_whitespace(c) {
            (out, out.len() > 0)
        } else if gap {
            (out.push(' ').push(c), false)
        } else {
            (out.push(c), false)
        }
    }
}

/// The sanitized form of a close reason: words joined by single spaces,
/// at most 160 characters, or `unspecified` when no word remains.
pub open spec fn sanitized_reason(reason: Seq<char>) -> Seq<char> {
    let compact = squeeze(reason).0;
    if compact.len() == 0 {
        "unspecified"@
    } else if compact.len() > MAX_REASON_CHARS {
        compact.subrange(0, MAX_REASON_CHARS as int)
    } else {
        compact
    }
}

/// Compacts a client-supplied close reason onto one line of single-spaced
/// words, bounded to 160 characters.
pub fn sanitize_reason(reason: &str) -> (s: String)
    ensures
        s@ == sanitized_reason(reason@),
{
    let n = reason.unicode_len();
    let mut out: Vec<char> = Vec::new();
    let mut gap = false;
    let mut i: usize = 0;
    while i < n
        invariant
            n == reason@.len(),
            i <= n,
            (out@, gap) == squeeze(reason@.subrange(0, i as int)),
        decreases n - i,
    {
        let c = reason.get_char(i);
        proof {
            let next = reason@.subrange(0, i + 1);
            assert(next.drop_last() == reason@.subrange(0, i as int));
            assert(next.last() == c);
        }
        if whitespace(c) {
            gap = out.len() > 0;
        } else {
            if gap {
                out.push(' ');
            }
            out.push(c);
            gap = false;
        }
        i = i + 1;
    }
    assert(reason@.subrange(0, n as int) == reason@);
    if out.len() == 0 {
        let unspecified = ['u', 'n', 's', 'p', 'e', 'c', 'i', 'f', 'i', 'e', 'd'];
        let mut v: Vec<char> = Vec::new();
        let mut k: usize = 0;
        while k < 11
            invariant
                k <= 11,
                unspecified@ == seq!['u', 'n', 's', 'p', 'e', 'c', 'i', 'f', 'i', 'e', 'd'],
                v@ == unspecified@.subrange(0, k as int),
            decreases 11 - k,
        {
            v.push(unspecified[k]);
            k = k + 1;
        }
        proof {
            reveal_strlit("unspecified");
            assert(v@ == "unspecified"@);
        }
        return string_from_chars(v);
    }
    if out.len() > MAX_REASON_CHARS {
        out.truncate(MAX_REASON_CHARS);
    }
    string_from_chars(out)
}

/// Longest exit reason kept, in characters.
pub const MAX_EXIT_REASON_CHARS: usize = 80;

/// `s` without leading whitespace.
pub open spec fn trim_start(s: Seq<char>) -> Seq<char>
    decreases s.len(),
{
    if s.len() > 0 && is_unicode_whitespace(s[0]) { trim_start(s.drop_first()) } else { s }
}

/// `s` without trailing whitespace.
pub open spec fn trim_end(s: Seq<char>) -> Seq<char>
    decreases s.len(),
{
    if s.len() > 0 && is_unicode_whitespace(s.last()) { trim_end(s.drop_last()) } else { s }
}

/// The stored form of a player's exit reason: trimmed, at most 80
/// characters, or `userQuit` when nothing remains.
pub open spec fn normalized_exit_reason(reason: Seq<char>) -> Seq<char> {
    let t = trim_end(trim_start(reason));
    if t.len() == 0 {
        "userQuit"@
    } else if t.len() > MAX_EXIT_REASON_CHARS {
        t.subrange(0, MAX_EXIT_REASON_CHARS as int)
    } else {
        t
    }
}

proof fn lemma_trim_start_skips(s: Seq<char>, i: int)
    requires
        0 <= i <= s.len(),
        forall|j: int| 0 <= j < i ==> is_unicode_whitespace(#[trigger] s[j]),
    ensures
        trim_start(s) == trim_start(s.subrange(i, s.len() as int)),
    decreases i,
{
    if i > 0 {
        assert(s.drop_first().subrange(i - 1, s.drop_first().len() as int) == s.subrange(i, s.len() as int));
        lemma_trim_start_skips(s.drop_first(), i - 1);
    } else {
        assert(s.subrange(0, s.len() as int) == s);
    }
}

proof fn lemma_trim_end_skips(s: Seq<char>, j: int)
    requires
        0 <= j <= s.len(),
        forall|k: int| j <= k < s.len() ==> is_unicode_whitespace(#[trigger] s[k]),
    ensures
        trim_end(s) == trim_end(s.subrange(0, j)),
    decreases s.len() - j,
{
    if j < s.len() {
        assert(s.drop_last().subrange(0, j) == s.subrange(0, j));
        lemma_trim_end_skips(s.drop_last(), j);
    } else {
        assert(s.subrange(0, j) == s);
    }
}

proof fn lemma_trim_start_starts_with_a_word(s: Seq<char>)
    ensures
        trim_start(s).len() > 0 ==> !is_unicode_whitespace(trim_start(s)[0]),
        trim_start(s).len() <= s.len(),
    decreases s.len(),
{
    if s.len() > 0 && is_unicode_whitespace(s[0]) {
        lemma_trim_start_starts_with_a_word(s.drop_first());
    }
}

proof fn lemma_trim_end_is_a_prefix(s: Seq<char>)
    ensures
        trim_end(s).len() <= s.len(),
        forall|i: int| 0 <= i < trim_end(s).len() ==> #[trigger] trim_end(s)[i] == s[i],
    decreases s.len(),
{
    if s.len() > 0 && is_unicode_whitespace(s.last()) {
        lemma_trim_end_is_a_prefix(s.drop_last());
    }
}

/// A stored exit reason is never empty, never longer than 80 characters,
/// and never starts with whitespace.
pub proof fn law_exit_reason_is_trimmed_and_bounded(reason: Seq<char>)
    ensures
        0 < normalized_exit_reason(reason).len() <= MAX_EXIT_REASON_CHARS,
        !is_unicode_whitespace(normalized_exit_reason(reason)[0]),
{
    reveal_strlit("userQuit");
    let started = trim_start(reason);
    lemma_trim_start_starts_with_a_word(reason);
    lemma_trim_end_is_a_prefix(started);
    let t = trim_end(started);
    if t.len() > 0 {
        assert(t[0] == started[0]);
    }
}

/// Trims a player's exit reason and bounds it to 80 characters; an empty
/// reason becomes `userQuit`.
pub fn normalize_exit_reason(reason: String) -> (r: String)
    ensures
        r@ == normalized_exit_reason(reason@),
{
    let text = reason.as_str();
    let n = text.unicode_len();
    let mut start: usize = 0;
    while start < n && whitespace(text.get_char(start))
        invariant
            n == text@.len(),
            start <= n,
            forall|j: int| 0 <= j < start ==> is_unicode_whitespace(#[trigger] text@[j]),
        decreases n - start,
    {
        start = start + 1;
    }
    let ghost rest = text@.subrange(start as int, n as int);
    proof {
        lemma_trim_start_skips(text@, start as int);
        if start < n {
            assert(rest[0] == text@[start as int]);
        }
        assert(trim_start(rest) == rest);
    }
    let mut end: usize = n;
    while end > start && whitespace(text.get_char(end - 1))
        invariant
            n == text@.len(),
            start <= end <= n,
            rest == text@.subrange(start as int, n as int),
            forall|k: int| end <= k < n ==> is_unicode_whitespace(#[trigger] text@[k]),
        decreases end - start,
    {
        end = end - 1;
    }
    let ghost kept = text@.subrange(start as int, end as int);
    proof {
        assert forall|k: int| (end - start) <= k < rest.len() implies is_unicode_whitespace(#[trigger] rest[k]) by {
            assert(rest[k] == text@[start + k]);
        }
        lemma_trim_end_skips(rest, (end - start) as int);
        assert(rest.subrange(0, (end - start) as int) == kept);
        if end > start {
            assert(kept.last() == text@[end - 1]);
        }
        assert(trim_end(kept) == kept);
    }
    if start == end {
        let word = ['u', 's', 'e', 'r', 'Q', 'u', 'i', 't'];
        let mut v: Vec<char> = Vec::new();
        let mut k: usize = 0;
        while k < 8
            invariant
                k <= 8,
                word@ == seq!['u', 's', 'e', 'r', 'Q', 'u', 'i', 't'],
                v@ == word@.subrange(0, k as int),
            decreases 8 - k,
        {
            v.push(word[k]);
            k = k + 1;
        }
        proof {
            reveal_strlit("userQuit");
            assert(v@ == "userQuit"@);
        }
        return string_from_chars(v);
    }
    let limit = if end - start > MAX_EXIT_REASON_CHARS { start + MAX_EXIT_REASON_CHARS } else { end };
    let mut out: Vec<char> = Vec::new();
    let mut i: usize = start;
    while i < limit
        invariant
            n == text@.len(),
            start <= i <= limit,
            limit <= end <= n,
            out@ == text@.subrange(start as int, i as int),
        decreases limit - i,
    {
        out.push(text.get_char(i));
        i = i + 1;
    }
    proof {
        if end - start > MAX_EXIT_REASON_CHARS {
            assert(out@ == kept.subrange(0, MAX_EXIT_REASON_CHARS as int));
        } else {
            assert(out@ == kept);
        }
    }
    string_from_chars(out)
}

/// Decimal digits of `n`, most significant first.
pub open spec fn decimal(n: nat) -> Seq<char>
    decreases n,
{
    if n < 10 {
        seq![(48 + n) as char]
    } else {
        decimal(n / 10).push((48 + n % 10) as char)
    }
}

/// Client-family text of a subject key.
pub open spec fn client_text(subject_key: Option<String>) -> Seq<char> {
    match client_kind_of(match subject_key { Some(s) => Some(s@), None => None }) {
        ClientKind::Android => "android"@,
        ClientKind::Desktop => "desktop"@,
        ClientKind::Unknown => "unknown"@,
    }
}

/// The diagnostic line of a socket of an attached slot closing.
pub open spec fn slot_close_text(
    socket: Seq<char>,
    display_number: nat,
    role: Seq<char>,
    client: Seq<char>,
    room_status: Seq<char>,
    player_status: Seq<char>,
    runtime: Seq<char>,
    room_epoch: u64,
    session_epoch: u64,
    reason: Seq<char>,
) -> Seq<char> {
    socket + " socket closed for p"@ + decimal(display_number) + " role="@ + role + " client="@ + client
        + " roomStatus="@ + room_status + " playerStatus="@ + player_status + " runtime="@ + runtime
        + " roomEpoch="@ + decimal(room_epoch as nat) + " sessionEpoch="@ + decimal(session_epoch as nat)
        + " reason="@ + reason
}

/// The diagnostic line of a socket no slot knows closing.
pub open spec fn unknown_close_text(socket: Seq<char>, room_status: Seq<char>, room_epoch: u64, session_epoch: u64, reason: Seq<char>)
    -> Seq<char>
{
    socket + " socket closed for unknown connection roomStatus="@ + room_status + " roomEpoch="@
        + decimal(room_epoch as nat) + " sessionEpoch="@ + decimal(session_epoch as nat) + " reason="@ + reason
}

/// The diagnostic line of `slot`'s `socket` closing for `reason` in `room`.
pub open spec fn slot_close_line(room: &NetplayRoom, socket: Seq<char>, slot: PlayerSlot, reason: Seq<char>) -> Seq<char> {
    slot_close_text(socket, (slot.player_index.0 + 1) as nat, role_text(slot.role), client_text(slot.subject_key),
        room_status_text(room.status), player_status_text(slot.status), runtime_state_text(slot.runtime_state),
        room.room_epoch, room.session_epoch, sanitized_reason(reason))
}

/// The diagnostic line of an unknown `socket` closing for `reason` in `room`.
pub open spec fn unknown_close_line(room: &NetplayRoom, socket: Seq<char>, reason: Seq<char>) -> Seq<char> {
    unknown_close_text(socket, room_status_text(room.status), room.room_epoch, room.session_epoch, sanitized_reason(reason))
}

/// Appends the characters of `s` to `out`.
fn push_str_chars(out: &mut Vec<char>, s: &str)
    ensures
        final(out)@ == old(out)@ + s@,
{
    let n = s.unicode_len();
    let mut i: usize = 0;
    while i < n
        invariant
            n == s@.len(),
            i <= n,
            out@ == old(out)@ + s@.subrange(0, i as int),
        decreases n - i,
    {
        let c = s.get_char(i);
        proof {
            assert(s@.subrange(0, i + 1) == s@.subrange(0, i as int).push(c));
        }
        out.push(c);
        i = i + 1;
    }
    assert(s@.subrange(0, n as int) == s@);
}

/// Appends the decimal digits of `n` to `out`.
fn push_decimal(out: &mut Vec<char>, n: u64)
    ensures
        final(out)@ == old(out)@ + decimal(n as nat),
    decreases n,
{
    let ghost start = out@;
    if n >= 10 {
        push_decimal(out, n / 10);
    }
    let digit: u8 = (n % 10) as u8;
    out.push((48 + digit) as char);
    proof {
        if n >= 10 {
            assert(decimal(n as nat) == decimal((n / 10) as nat).push((48 + n % 10) as char));
            assert(out@ =~= start + decimal(n as nat));
        } else {
            assert(out@ =~= start + decimal(n as nat));
        }
    }
}

/// Renders the close line of an attached slot's socket, each integer in
/// decimal.
fn format_slot_close(
    socket: &str,
    display_number: u8,
    role: &str,
    client: &str,
    room_status: &str,
    player_status: &str,
    runtime: &str,
    room_epoch: u64,
    session_epoch: u64,
    reason: &str,
) -> (line: String)
    ensures
        line@ == slot_close_text(socket@, display_number as nat, role@, client@, room_status@, player_status@, runtime@,
            room_epoch, session_epoch, reason@),
{
    let mut out: Vec<char> = Vec::new();
    push_str_chars(&mut out, socket);
    push_str_chars(&mut out, " socket closed for p");
    push_decimal(&mut out, display_number as u64);
    push_str_chars(&mut out, " role=");
    push_str_chars(&mut out, role);
    push_str_chars(&mut out, " client=");
    push_str_chars(&mut out, client);
    push_str_chars(&mut out, " roomStatus=");
    push_str_chars(&mut out, room_status);
    push_str_chars(&mut out, " playerStatus=");
    push_str_chars(&mut out, player_status);
    push_str_chars(&mut out, " runtime=");
    push_str_chars(&mut out, runtime);
    push_str_chars(&mut out, " roomEpoch=");
    push_decimal(&mut out, room_epoch);
    push_str_chars(&mut out, " sessionEpoch=");
    push_decimal(&mut out, session_epoch);
    push_str_chars(&mut out, " reason=");
    push_str_chars(&mut out, reason);
    proof {
        assert(out@ =~= slot_close_text(socket@, display_number as nat, role@, client@, room_status@, player_status@,
            runtime@, room_epoch, session_epoch, reason@));
    }
    string_from_chars(out)
}

/// Renders the close line of an unknown socket, each integer in decimal.
fn format_unknown_close(socket: &str, room_status: &str, room_epoch: u64, session_epoch: u64, reason: &str) -> (line: String)
    ensures
        line@ == unknown_close_text(socket@, room_status@, room_epoch, session_epoch, reason@),
{
    let mut out: Vec<char> = Vec::new();
    push_str_chars(&mut out, socket);
    push_str_chars(&mut out, " socket closed for unknown connection roomStatus=");
    push_str_chars(&mut out, room_status);
    push_str_chars(&mut out, " roomEpoch=");
    push_decimal(&mut out, room_epoch);
    push_str_chars(&mut out, " sessionEpoch=");
    push_decimal(&mut out, session_epoch);
    push_str_chars(&mut out, " reason=");
    push_str_chars(&mut out, reason);
    proof {
        assert(out@ =~= unknown_close_text(socket@, room_status@, room_epoch, session_epoch, reason@));
    }
    string_from_chars(out)
}

impl NetplayRoom {
    fn describe_slot(&self, socket: &'static str, slot: &PlayerSlot, reason: &str) -> (line: String)
        requires
            slot.player_index.0 < 255,
        ensures
            line@ == slot_close_line(self, socket@, *slot, reason@),
    {
        let client = match &slot.subject_key {
            Some(key) => client_kind_label(Some(key.as_str())),
            None => client_kind_label(None),
        };
        let sanitized = sanitize_reason(reason);
        format_slot_close(
            socket,
            slot.player_index.display_number(),
            role_label(slot.role),
            client,
            room_status_label(self.status),
            player_status_label(slot.status),
            runtime_state_label(slot.runtime_state),
            self.room_epoch,
            self.session_epoch,
            sanitized.as_str(),
        )
    }

    fn describe_unknown_connection(&self, socket: &'static str, reason: &str) -> (line: String)
        ensures
            line@ == unknown_close_line(self, socket@, reason@),
    {
        let sanitized = sanitize_reason(reason);
        format_unknown_close(socket, room_status_label(self.status), self.room_epoch, self.session_epoch, sanitized.as_str())
    }

    /// Describes a control socket connection closing, for debug events.
    pub fn describe_control_connection(&self, connection_id: ConnectionId, reason: &str) -> (line: String)
        requires
            self.wf(),
        ensures
            line@ == (match connection_position(self.players@, connection_id) {
                Some(i) => slot_close_line(self, "control"@, self.players@[i], reason@),
                None => unknown_close_line(self, "control"@, reason@),
            }),
    {
        match self.connection_slot_position(connection_id) {
            Some(i) => self.describe_slot("control", &self.players[i], reason),
            None => self.describe_unknown_connection("control", reason),
        }
    }

    /// Describes a binary input socket connection closing, for debug events.
    pub fn describe_input_connection(&self, connection_id: ConnectionId, reason: &str) -> (line: String)
        requires
            self.wf(),
        ensures
            line@ == (match input_connection_position(self.players@, connection_id) {
                Some(i) => slot_close_line(self, "input"@, self.players@[i], reason@),
                None => unknown_close_line(self, "input"@, reason@),
            }),
    {
        match self.input_connection_slot_position(connection_id) {
            Some(i) => self.describe_slot("input", &self.players[i], reason),
            None => self.describe_unknown_connection("input", reason),
        }
    }
}

proof fn lemma_squeeze_shape(s: Seq<char>)
    ensures
        forall|i: int| 0 <= i < squeeze(s).0.len() ==> !is_unicode_whitespace(#[trigger] squeeze(s).0[i]) || squeeze(s).0[i] == ' ',
        squeeze(s).0.len() > 0 ==> squeeze(s).0[0] != ' ' && squeeze(s).0.last() != ' ',
        forall|i: int| 0 <= i < squeeze(s).0.len() - 1 ==> !(#[trigger] squeeze(s).0[i] == ' ' && squeeze(s).0[i + 1] == ' '),
        squeeze(s).1 ==> squeeze(s).0.len() > 0,
    decreases s.len(),
{
    if s.len() > 0 {
        lemma_squeeze_shape(s.drop_last());
    }
}

/// A sanitized reason is never empty, never longer than 160 characters, and
/// holds no line breaks, tabs, or runs of spaces.
pub proof fn law_sanitized_reason_is_one_compact_line(reason: Seq<char>)
    ensures
        0 < sanitized_reason(reason).len() <= MAX_REASON_CHARS,
        forall|i: int| 0 <= i < sanitized_reason(reason).len() ==> {
            let c = #[trigger] sanitized_reason(reason)[i];
            c != '\n' && c != '\r' && c != '\t'
        },
        forall|i: int| 0 <= i < sanitized_reason(reason).len() - 1 ==>
            !(#[trigger] sanitized_reason(reason)[i] == ' ' && sanitized_reason(reason)[i + 1] == ' '),
{
    lemma_squeeze_shape(reason);
    reveal_strlit("unspecified");
    let compact = squeeze(reason).0;
    if compact.len() > MAX_REASON_CHARS {
        let r = compact.subrange(0, MAX_REASON_CHARS as int);
        assert forall|i: int| 0 <= i < r.len() implies #[trigger] r[i] == compact[i] by {}
    }
}

} // verus!
