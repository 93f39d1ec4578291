use vstd::prelude::*;
use vstd::string::StringExecFns;
use vstd::utf8::{encode_utf8, is_ascii_chars, is_ascii_chars_encode_utf8};

use crate::game::dto::{GameLogEntryDto, GameLogKindDto};
use crate::game::error::{GameRuntimeError, PhaseRequirement, SaveProblem, StaleRevision};
use crate::game::state::CampaignPhase;

verus! {

/// Schema version of the saves this runtime writes and reads.
pub const GAME_SAVE_SCHEMA_VERSION: u32 = 11;

/// Most entries the game log keeps.
pub const MAX_LOG_ENTRIES: usize = 64;

/// Most details one log entry keeps.
pub const MAX_LOG_DETAILS: usize = 32;

/// Most UTF-8 bytes of a log entry's source.
pub const MAX_LOG_SOURCE_BYTES: usize = 128;

/// Most UTF-8 bytes of a log entry's text.
pub const MAX_LOG_TEXT_BYTES: usize = 512;

/// Most UTF-8 bytes of one detail of a log entry.
pub const MAX_LOG_DETAIL_BYTES: usize = 512;

/// Most bytes of a save.
pub const MAX_GAME_SAVE_BYTES: usize = 1000000;

/// What follows the count of details a full log entry leaves out.
pub const OMITTED_DETAILS_NOTE: &'static str = " additional receipt decision(s) omitted.";

/// The answer to a command written against revision `expected` while
/// the runtime is at `current`.
pub open spec fn revision_check(expected: u64, current: u64) -> Result<(), GameRuntimeError> {
    if expected == current {
        Ok(())
    } else {
        Err(GameRuntimeError::StaleCommand(StaleRevision { expected, current }))
    }
}

/// The revision after a mutation at `revision`.
pub open spec fn revision_after(revision: u64) -> Result<u64, GameRuntimeError> {
    if revision == u64::MAX {
        Err(GameRuntimeError::CounterOverflow)
    } else {
        Ok((revision + 1) as u64)
    }
}

/// Refuses a command written against another revision.
pub fn ensure_revision(expected: u64, current: u64) -> (result: Result<(), GameRuntimeError>)
    ensures
        result == revision_check(expected, current),
{
    if expected != current {
        return Err(GameRuntimeError::StaleCommand(StaleRevision { expected, current }));
    }
    Ok(())
}

/// A command written against the current revision is admitted; the
/// mutation it makes moves the revision on by exactly one; the same
/// command sent again against that revision is then refused as stale,
/// naming both revisions.
pub proof fn lemma_command_revisions(revision: u64)
    requires
        revision < u64::MAX,
    ensures
        revision_check(revision, revision) is Ok,
        revision_after(revision) == Ok::<u64, GameRuntimeError>((revision + 1) as u64),
        revision_check(revision, (revision + 1) as u64) == Err::<(), GameRuntimeError>(
            GameRuntimeError::StaleCommand(
                StaleRevision { expected: revision, current: (revision + 1) as u64 },
            ),
        ),
{
}

/// Refuses a mutation that could not advance the revision, or the
/// operation or log counter it reserves.
pub fn ensure_mutation_capacity(
    revision: u64,
    next_operation: u64,
    next_log_id: u64,
    reserves_operation: bool,
    reserves_log: bool,
) -> (result: Result<(), GameRuntimeError>)
    ensures
        result == (if revision == u64::MAX || (reserves_operation && next_operation == u64::MAX)
            || (reserves_log && next_log_id == u64::MAX) {
            Err(GameRuntimeError::CounterOverflow)
        } else {
            Ok::<(), GameRuntimeError>(())
        }),
{
    if revision == u64::MAX || (reserves_operation && next_operation == u64::MAX) || (reserves_log
        && next_log_id == u64::MAX) {
        return Err(GameRuntimeError::CounterOverflow);
    }
    Ok(())
}

/// The revision after a mutation.
pub fn bumped_revision(revision: u64) -> (result: Result<u64, GameRuntimeError>)
    ensures
        result == revision_after(revision),
{
    match revision.checked_add(1) {
        Some(next) => Ok(next),
        None => Err(GameRuntimeError::CounterOverflow),
    }
}

/// The campaign phase a requirement asks for; the activation requirements
/// ask for an encounter.
pub open spec fn required_phase(required: PhaseRequirement) -> CampaignPhase {
    match required {
        PhaseRequirement::Camp => CampaignPhase::Camp,
        PhaseRequirement::Exploration => CampaignPhase::Exploration,
        PhaseRequirement::Outcome => CampaignPhase::Outcome,
        _ => CampaignPhase::Encounter,
    }
}

/// Refuses a command outside the phase it requires; without a campaign
/// there is no encounter.
pub fn ensure_campaign_phase(phase: Option<CampaignPhase>, required: PhaseRequirement) -> (result:
    Result<(), GameRuntimeError>)
    ensures
        result == match phase {
            None => Err(GameRuntimeError::NoEncounter),
            Some(p) => if p == required_phase(required) {
                Ok::<(), GameRuntimeError>(())
            } else {
                Err(GameRuntimeError::WrongPhase(required))
            },
        },
{
    let wanted = match required {
        PhaseRequirement::Camp => CampaignPhase::Camp,
        PhaseRequirement::Exploration => CampaignPhase::Exploration,
        PhaseRequirement::Outcome => CampaignPhase::Outcome,
        _ => CampaignPhase::Encounter,
    };
    match phase {
        None => Err(GameRuntimeError::NoEncounter),
        Some(p) => if p == wanted {
            Ok(())
        } else {
            Err(GameRuntimeError::WrongPhase(required))
        },
    }
}

/// Refuses a save of more than `MAX_GAME_SAVE_BYTES` bytes.
pub fn check_save_size(bytes: usize) -> (result: Result<(), GameRuntimeError>)
    ensures
        result == (if bytes > MAX_GAME_SAVE_BYTES {
            Err(
                GameRuntimeError::InvalidSave(
                    SaveProblem::TooLarge { bytes, maximum: MAX_GAME_SAVE_BYTES },
                ),
            )
        } else {
            Ok::<(), GameRuntimeError>(())
        }),
{
    if bytes > MAX_GAME_SAVE_BYTES {
        return Err(
            GameRuntimeError::InvalidSave(SaveProblem::TooLarge { bytes, maximum: MAX_GAME_SAVE_BYTES }),
        );
    }
    Ok(())
}

/// Refuses a save made for another composition of the rules.
pub fn check_fingerprint(expected: &String, actual: String) -> (result: Result<(), GameRuntimeError>)
    ensures
        actual@ == expected@ ==> result == Ok::<(), GameRuntimeError>(()),
        actual@ != expected@ ==> (result matches Err(
            GameRuntimeError::CompositionFingerprintMismatch { expected: e, actual: a },
        ) && e@ == expected@ && a@ == actual@),
{
    if actual == *expected {
        return Ok(());
    }
    Err(GameRuntimeError::CompositionFingerprintMismatch { expected: expected.clone(), actual })
}

/// The decimal digit `d`.
pub open spec fn digit_char(d: nat) -> char {
    (d + 48) as char
}

/// The decimal numeral of `n`, most significant digit first.
pub open spec fn decimal_digits(n: nat) -> Seq<char>
    decreases n,
{
    if n < 10 {
        seq![digit_char(n)]
    } else {
        decimal_digits(n / 10).push(digit_char(n % 10))
    }
}

/// The one-character numeral of the digit `d`.
fn digit_text(d: usize) -> (text: String)
    requires
        d < 10,
    ensures
        text@ == seq![digit_char(d as nat)],
{
    match d {
        0 => {
            proof {
                reveal_strlit("0");
            }
            "0".to_owned()
        },
        1 => {
            proof {
                reveal_strlit("1");
            }
            "1".to_owned()
        },
        2 => {
            proof {
                reveal_strlit("2");
            }
            "2".to_owned()
        },
        3 => {
            proof {
                reveal_strlit("3");
            }
            "3".to_owned()
        },
        4 => {
            proof {
                reveal_strlit("4");
            }
            "4".to_owned()
        },
        5 => {
            proof {
                reveal_strlit("5");
            }
            "5".to_owned()
        },
        6 => {
            proof {
                reveal_strlit("6");
            }
            "6".to_owned()
        },
        7 => {
            proof {
                reveal_strlit("7");
            }
            "7".to_owned()
        },
        8 => {
            proof {
                reveal_strlit("8");
            }
            "8".to_owned()
        },
        _ => {
            proof {
                reveal_strlit("9");
            }
            "9".to_owned()
        },
    }
}

/// The decimal numeral of `n`.
pub(crate) fn decimal_text(n: usize) -> (text: String)
    ensures
        text@ == decimal_digits(n as nat),
    decreases n,
{
    if n < 10 {
        digit_text(n)
    } else {
        let mut text = decimal_text(n / 10);
        let digit = digit_text(n % 10);
        text.append(digit.as_str());
        proof {
            assert(text@ =~= decimal_digits(n as nat));
        }
        text
    }
}

/// The decimal numeral of a 64-bit count.
pub(crate) fn u64_text(n: u64) -> (text: String)
    ensures
        text@ == decimal_digits(n as nat),
    decreases n,
{
    if n < 10 {
        digit_text(n as usize)
    } else {
        let mut text = u64_text(n / 10);
        let digit = digit_text((n % 10) as usize);
        text.append(digit.as_str());
        proof {
            assert(text@ =~= decimal_digits(n as nat));
        }
        text
    }
}

/// The decimal numeral of `v`, with a minus sign when it is negative.
pub open spec fn signed_digits(v: int) -> Seq<char> {
    if v < 0 {
        seq!['-'] + decimal_digits((-v) as nat)
    } else {
        decimal_digits(v as nat)
    }
}

/// The decimal numeral of `v`, always signed: `+` for zero and above.
pub open spec fn plus_signed_digits(v: int) -> Seq<char> {
    if v < 0 {
        seq!['-'] + decimal_digits((-v) as nat)
    } else {
        seq!['+'] + decimal_digits(v as nat)
    }
}

/// The magnitude of `v`.
fn magnitude(v: i64) -> (m: u64)
    ensures
        m == (if v < 0 { -v } else { v as int }),
{
    if v < 0 {
        ((-(v + 1)) as u64) + 1
    } else {
        v as u64
    }
}

/// The decimal numeral of a signed value.
pub(crate) fn signed_text(v: i64) -> (text: String)
    ensures
        text@ == signed_digits(v as int),
{
    let digits = u64_text(magnitude(v));
    if v < 0 {
        let mut text = String::new();
        text.append("-");
        text.append(digits.as_str());
        proof {
            reveal_strlit("-");
            assert(text@ =~= signed_digits(v as int));
        }
        text
    } else {
        digits
    }
}

/// The decimal numeral of a signed value, with its sign always shown.
pub(crate) fn plus_signed_text(v: i64) -> (text: String)
    ensures
        text@ == plus_signed_digits(v as int),
{
    let digits = u64_text(magnitude(v));
    let mut text = String::new();
    if v < 0 {
        text.append("-");
    } else {
        text.append("+");
    }
    text.append(digits.as_str());
    proof {
        reveal_strlit("-");
        reveal_strlit("+");
        assert(text@ =~= plus_signed_digits(v as int));
    }
    text
}

/// Ten to the power `k`.
pub open spec fn pow10(k: nat) -> nat
    decreases k,
{
    if k == 0 {
        1
    } else {
        10 * pow10((k - 1) as nat)
    }
}

proof fn lemma_decimal_digits(n: nat, k: nat)
    requires
        k >= 1,
        n < pow10(k),
    ensures
        decimal_digits(n).len() <= k,
        is_ascii_chars(decimal_digits(n)),
    decreases n,
{
    if n >= 10 {
        assert(k >= 2) by {
            if k == 1 {
                assert(pow10(1) == 10 * pow10(0));
            }
        }
        assert(n / 10 < pow10((k - 1) as nat)) by (nonlinear_arith)
            requires
                n < 10 * pow10((k - 1) as nat),
        ;
        lemma_decimal_digits(n / 10, (k - 1) as nat);
        let d = digit_char(n % 10);
        assert(decimal_digits(n) == decimal_digits(n / 10).push(d));
        assert forall|i: int| 0 <= i < decimal_digits(n).len() implies '\0' <= #[trigger] decimal_digits(
            n,
        )[i] <= '\u{7f}' by {
            if i < decimal_digits(n / 10).len() {
                assert(decimal_digits(n)[i] == decimal_digits(n / 10)[i]);
            }
        }
    } else {
        assert forall|i: int| 0 <= i < decimal_digits(n).len() implies '\0' <= #[trigger] decimal_digits(
            n,
        )[i] <= '\u{7f}' by {
        }
    }
}

/// The UTF-8 length of a text.
pub open spec fn text_bytes(text: Seq<char>) -> nat {
    encode_utf8(text).len()
}

/// The mathematical value of a log entry.
pub struct LogEntryView {
    pub id: u64,
    pub turn: u64,
    pub kind: GameLogKindDto,
    pub source: Seq<char>,
    pub text: Seq<char>,
    pub details: Seq<Seq<char>>,
}

/// The value of a log entry.
pub open spec fn entry_view(entry: GameLogEntryDto) -> LogEntryView {
    LogEntryView {
        id: entry.id,
        turn: entry.turn,
        kind: entry.kind,
        source: entry.source@,
        text: entry.text@,
        details: entry.details@.map_values(|d: String| d@),
    }
}

/// The value of a log.
pub open spec fn log_view(entries: Seq<GameLogEntryDto>) -> Seq<LogEntryView> {
    entries.map_values(|entry: GameLogEntryDto| entry_view(entry))
}

/// Whether an entry keeps the log's bounds: a nonzero identity, a source,
/// text, detail count and details of bounded size.
pub open spec fn entry_within_bounds(entry: LogEntryView) -> bool {
    &&& entry.id != 0
    &&& text_bytes(entry.source) <= MAX_LOG_SOURCE_BYTES
    &&& text_bytes(entry.text) <= MAX_LOG_TEXT_BYTES
    &&& entry.details.len() <= MAX_LOG_DETAILS
    &&& forall|i: int|
        0 <= i < entry.details.len() ==> text_bytes(#[trigger] entry.details[i])
            <= MAX_LOG_DETAIL_BYTES
}

/// Whether entry identities increase strictly along the log.
pub open spec fn ids_increasing(log: Seq<LogEntryView>) -> bool {
    forall|i: int, j: int| 0 <= i < j < log.len() ==> #[trigger] log[i].id < #[trigger] log[j].id
}

/// Why a restored log and its counters are refused, checked in this order;
/// `None` when they are accepted.
pub open spec fn log_problem(next_operation: u64, next_log_id: u64, log: Seq<LogEntryView>) -> Option<
    SaveProblem,
> {
    if next_operation == 0 || next_log_id == 0 || log.len() > MAX_LOG_ENTRIES {
        Some(SaveProblem::CountersOrLogInvalid)
    } else if !ids_increasing(log) {
        Some(SaveProblem::LogOrder)
    } else if (exists|i: int| 0 <= i < log.len() && !entry_within_bounds(#[trigger] log[i])) || (
    log.len() > 0 && next_log_id <= log.last().id) {
        Some(SaveProblem::LogBounds)
    } else {
        None
    }
}

/// The UTF-8 length of a text, computed.
fn byte_length(text: &String) -> (length: usize)
    ensures
        length == text_bytes(text@),
{
    text.as_str().as_bytes().len()
}

/// Whether an entry keeps the log's bounds, computed.
fn entry_fits(entry: &GameLogEntryDto) -> (fits: bool)
    ensures
        fits == entry_within_bounds(entry_view(*entry)),
{
    if entry.id == 0 || byte_length(&entry.source) > MAX_LOG_SOURCE_BYTES || byte_length(
        &entry.text,
    ) > MAX_LOG_TEXT_BYTES || entry.details.len() > MAX_LOG_DETAILS {
        return false;
    }
    let ghost details = entry.details@.map_values(|d: String| d@);
    let mut index: usize = 0;
    while index < entry.details.len()
        invariant
            0 <= index <= entry.details@.len(),
            details == entry.details@.map_values(|d: String| d@),
            forall|i: int| 0 <= i < index ==> text_bytes(#[trigger] details[i]) <= MAX_LOG_DETAIL_BYTES,
        decreases entry.details@.len() - index,
    {
        if byte_length(&entry.details[index]) > MAX_LOG_DETAIL_BYTES {
            assert(!(text_bytes(details[index as int]) <= MAX_LOG_DETAIL_BYTES));
            return false;
        }
        index = index + 1;
    }
    true
}

/// Checks the counters and the log of a restored save.
pub fn validate_restored_log(next_operation: u64, next_log_id: u64, log: &Vec<GameLogEntryDto>) -> (result:
    Result<(), GameRuntimeError>)
    ensures
        result == match log_problem(next_operation, next_log_id, log_view(log@)) {
            Some(problem) => Err(GameRuntimeError::InvalidSave(problem)),
            None => Ok::<(), GameRuntimeError>(()),
        },
{
    let ghost view = log_view(log@);
    if next_operation == 0 || next_log_id == 0 || log.len() > MAX_LOG_ENTRIES {
        return Err(GameRuntimeError::InvalidSave(SaveProblem::CountersOrLogInvalid));
    }
    let mut index: usize = 1;
    while index < log.len()
        invariant
            1 <= index,
            index <= log@.len() || log@.len() == 0,
            view == log_view(log@),
            next_operation != 0,
            next_log_id != 0,
            log@.len() <= MAX_LOG_ENTRIES,
            forall|i: int, j: int| 0 <= i < j < index && j < view.len() ==> #[trigger] view[i].id < #[trigger] view[j].id,
        decreases log@.len() - index,
    {
        if log[index - 1].id >= log[index].id {
            assert(view[index - 1].id >= view[index as int].id);
            return Err(GameRuntimeError::InvalidSave(SaveProblem::LogOrder));
        }
        assert forall|i: int, j: int| 0 <= i < j < index + 1 && j < view.len() implies #[trigger] view[i].id
            < #[trigger] view[j].id by {
            if j == index && i < index - 1 {
                assert(view[i].id < view[index - 1].id);
            }
        }
        index = index + 1;
    }
    let mut checked: usize = 0;
    while checked < log.len()
        invariant
            0 <= checked <= log@.len(),
            view == log_view(log@),
            next_operation != 0,
            next_log_id != 0,
            log@.len() <= MAX_LOG_ENTRIES,
            ids_increasing(view),
            forall|i: int| 0 <= i < checked ==> entry_within_bounds(#[trigger] view[i]),
        decreases log@.len() - checked,
    {
        if !entry_fits(&log[checked]) {
            assert(!entry_within_bounds(view[checked as int]));
            return Err(GameRuntimeError::InvalidSave(SaveProblem::LogBounds));
        }
        checked = checked + 1;
    }
    if log.len() > 0 && next_log_id <= log[log.len() - 1].id {
        return Err(GameRuntimeError::InvalidSave(SaveProblem::LogBounds));
    }
    Ok(())
}

/// The game log and the identity its next entry takes.
#[derive(Debug, PartialEq, Eq)]
pub struct GameLog {
    pub entries: Vec<GameLogEntryDto>,
    pub next_id: u64,
}

/// The details a log entry keeps: all of them, or the first
/// `MAX_LOG_DETAILS - 1` and a note counting the rest.
pub open spec fn kept_details(details: Seq<Seq<char>>) -> Seq<Seq<char>> {
    if details.len() <= MAX_LOG_DETAILS {
        details
    } else {
        details.take(MAX_LOG_DETAILS - 1).push(
            decimal_digits((details.len() - (MAX_LOG_DETAILS - 1)) as nat) + OMITTED_DETAILS_NOTE@,
        )
    }
}

/// The log after an entry is appended: once the log is over full, its
/// oldest entry leaves.
pub open spec fn appended(log: Seq<LogEntryView>, entry: LogEntryView) -> Seq<LogEntryView> {
    let pushed = log.push(entry);
    if pushed.len() > MAX_LOG_ENTRIES {
        pushed.drop_first()
    } else {
        pushed
    }
}

/// The views of a list of texts.
pub open spec fn texts_view(texts: Seq<String>) -> Seq<Seq<char>> {
    texts.map_values(|t: String| t@)
}

/// The details a log entry keeps, computed.
fn keep_details(details: Vec<String>) -> (kept: Vec<String>)
    ensures
        texts_view(kept@) == kept_details(texts_view(details@)),
{
    let mut details = details;
    let ghost before = texts_view(details@);
    if details.len() > MAX_LOG_DETAILS {
        let omitted = details.len() - (MAX_LOG_DETAILS - 1);
        details.truncate(MAX_LOG_DETAILS - 1);
        let mut note = decimal_text(omitted);
        note.append(OMITTED_DETAILS_NOTE);
        let ghost note_view = note@;
        details.push(note);
        assert(texts_view(details@) =~= before.take(MAX_LOG_DETAILS - 1).push(note_view));
    }
    details
}

impl GameLog {
    /// Appends an entry at `turn`. A log whose next identity cannot
    /// advance refuses the entry and stays as it was.
    pub fn push(
        &mut self,
        turn: u64,
        kind: GameLogKindDto,
        source: String,
        text: String,
        details: Vec<String>,
    ) -> (result: Result<(), GameRuntimeError>)
        ensures
            old(self).next_id == u64::MAX ==> result == Err::<(), GameRuntimeError>(
                GameRuntimeError::CounterOverflow,
            ) && *final(self) == *old(self),
            old(self).next_id < u64::MAX ==> result == Ok::<(), GameRuntimeError>(())
                && final(self).next_id == old(self).next_id + 1 && log_view(final(self).entries@)
                == appended(
                log_view(old(self).entries@),
                LogEntryView {
                    id: old(self).next_id,
                    turn,
                    kind,
                    source: source@,
                    text: text@,
                    details: kept_details(texts_view(details@)),
                },
            ),
    {
        let details = keep_details(details);
        let entry = GameLogEntryDto { id: self.next_id, turn, kind, source, text, details };
        let next = match self.next_id.checked_add(1) {
            Some(next) => next,
            None => {
                return Err(GameRuntimeError::CounterOverflow);
            },
        };
        let ghost before = log_view(self.entries@);
        let ghost added = entry_view(entry);
        assert(added.details == texts_view(entry.details@));
        self.next_id = next;
        self.entries.push(entry);
        assert(log_view(self.entries@) =~= before.push(added));
        if self.entries.len() > MAX_LOG_ENTRIES {
            self.entries.remove(0);
            assert(log_view(self.entries@) =~= before.push(added).drop_first());
        }
        Ok(())
    }
}

/// The count note of a full entry is short ASCII text.
proof fn lemma_note_fits(omitted: nat)
    requires
        omitted <= u64::MAX,
    ensures
        text_bytes(decimal_digits(omitted) + OMITTED_DETAILS_NOTE@) <= MAX_LOG_DETAIL_BYTES,
{
    reveal_strlit(" additional receipt decision(s) omitted.");
    assert(pow10(20) == 100000000000000000000nat) by {
        reveal_with_fuel(pow10, 21);
    }
    lemma_decimal_digits(omitted, 20);
    let note = OMITTED_DETAILS_NOTE@;
    assert(is_ascii_chars(note));
    let all = decimal_digits(omitted) + note;
    assert forall|i: int| 0 <= i < all.len() implies '\0' <= #[trigger] all[i] <= '\u{7f}' by {
        if i < decimal_digits(omitted).len() {
            assert(all[i] == decimal_digits(omitted)[i]);
        } else {
            assert(all[i] == note[i - decimal_digits(omitted).len()]);
        }
    }
    is_ascii_chars_encode_utf8(all);
}

/// Appending an entry to a log the save accepts gives a log the save
/// accepts, provided the entry's source, text and details are within the
/// log's byte bounds.
pub proof fn lemma_push_keeps_log_valid(
    next_operation: u64,
    next_id: u64,
    log: Seq<LogEntryView>,
    turn: u64,
    kind: GameLogKindDto,
    source: Seq<char>,
    text: Seq<char>,
    details: Seq<Seq<char>>,
)
    requires
        log_problem(next_operation, next_id, log) is None,
        next_id < u64::MAX,
        details.len() <= usize::MAX,
        text_bytes(source) <= MAX_LOG_SOURCE_BYTES,
        text_bytes(text) <= MAX_LOG_TEXT_BYTES,
        forall|i: int| 0 <= i < details.len() ==> text_bytes(#[trigger] details[i]) <= MAX_LOG_DETAIL_BYTES,
    ensures
        log_problem(
            next_operation,
            (next_id + 1) as u64,
            appended(
                log,
                LogEntryView { id: next_id, turn, kind, source, text, details: kept_details(details) },
            ),
        ) is None,
{
    let entry = LogEntryView { id: next_id, turn, kind, source, text, details: kept_details(details) };
    let kept = kept_details(details);
    if details.len() > MAX_LOG_DETAILS {
        lemma_note_fits((details.len() - (MAX_LOG_DETAILS - 1)) as nat);
        assert forall|i: int| 0 <= i < kept.len() implies text_bytes(#[trigger] kept[i])
            <= MAX_LOG_DETAIL_BYTES by {
            if i < MAX_LOG_DETAILS - 1 {
                assert(kept[i] == details[i]);
            }
        }
    }
    assert(entry_within_bounds(entry));
    if log.len() > 0 {
        assert forall|i: int| 0 <= i < log.len() implies #[trigger] log[i].id < next_id by {
            if i < log.len() - 1 {
                assert(log[i].id < log[log.len() - 1].id);
            }
        }
    }
    let pushed = log.push(entry);
    assert forall|i: int, j: int| 0 <= i < j < pushed.len() implies #[trigger] pushed[i].id
        < #[trigger] pushed[j].id by {
        if j == log.len() {
            assert(pushed[i] == log[i]);
        } else {
            assert(pushed[i] == log[i]);
            assert(pushed[j] == log[j]);
        }
    }
    assert forall|i: int| 0 <= i < pushed.len() implies entry_within_bounds(#[trigger] pushed[i]) by {
        if i < log.len() {
            assert(pushed[i] == log[i]);
            if !entry_within_bounds(log[i]) {
                assert(exists|k: int| 0 <= k < log.len() && !entry_within_bounds(#[trigger] log[k]));
            }
        }
    }
    let result = appended(log, entry);
    if pushed.len() > MAX_LOG_ENTRIES {
        assert forall|i: int, j: int| 0 <= i < j < result.len() implies #[trigger] result[i].id
            < #[trigger] result[j].id by {
            assert(result[i] == pushed[i + 1]);
            assert(result[j] == pushed[j + 1]);
        }
        assert forall|i: int| 0 <= i < result.len() implies entry_within_bounds(#[trigger] result[i]) by {
            assert(result[i] == pushed[i + 1]);
        }
    }
    assert(result.last() == entry);
}

} // verus!
