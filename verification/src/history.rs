//! What holds of a whole load, whatever the caller reports and in whatever
//! order.
//!
//! A load is described by the path it was begun with and the events the
//! loader was told since, oldest first. Events that the loader refused
//! are part of that sequence: they leave it unchanged.

use crate::config::{BotConfigView, PrettyLayout};
use crate::error::{lemma_message_names_path_and_cause, occurs_in, ConfigErrorView};
use crate::loader::{ActionView, EventView, LoaderView};
use vstd::prelude::*;

verus! {

/// The loader for `path` after it has been told `events` in order.
pub open spec fn after(path: Seq<char>, events: Seq<EventView>) -> LoaderView
    decreases events.len(),
{
    if events.len() == 0 {
        LoaderView::begin(path)
    } else {
        after(path, events.drop_last()).next(events.last())
    }
}

/// The answer that the event at index `i` got, `None` if it was refused.
pub open spec fn answer_at(path: Seq<char>, events: Seq<EventView>, i: int) -> Option<ActionView>
    recommends
        0 <= i < events.len(),
{
    after(path, events.take(i)).answer(events[i])
}

/// Whether an answer is part of reading an existing file: parsing it, or
/// finishing with what parsing gave.
pub open spec fn reads_only(action: ActionView) -> bool {
    match action {
        ActionView::Parse => true,
        ActionView::Finish(Ok(_)) => true,
        ActionView::Finish(Err(ConfigErrorView::ParseFailed { .. })) => true,
        _ => false,
    }
}

/// The path of a load never changes.
pub proof fn lemma_path_is_kept(path: Seq<char>, events: Seq<EventView>)
    ensures
        after(path, events).path == path,
    decreases events.len(),
{
    if events.len() > 0 {
        lemma_path_is_kept(path, events.drop_last());
    }
}

/// As long as no attempt to open the file has failed, the load is on the
/// way from opening over parsing to its end.
proof fn lemma_stays_on_read_path(path: Seq<char>, events: Seq<EventView>)
    requires
        forall|j: int| 0 <= j < events.len() ==> !(#[trigger] events[j] is OpenFailed),
    ensures
        after(path, events).phase is Opening || after(path, events).phase is Parsing || after(
            path,
            events,
        ).phase is Finished,
    decreases events.len(),
{
    if events.len() > 0 {
        let earlier = events.drop_last();
        assert forall|j: int| 0 <= j < earlier.len() implies !(#[trigger] earlier[j]
            is OpenFailed) by {
            assert(earlier[j] == events[j]);
        }
        lemma_stays_on_read_path(path, earlier);
    }
}

/// A file that is there is never created anew nor written to.
///
/// If every attempt to open the file succeeds, then whatever else the
/// loader is told, it asks for nothing but to parse the file, and it
/// finishes only with what parsing gave: the record or the parse failure.
pub proof fn lemma_existing_file_is_only_read(path: Seq<char>, events: Seq<EventView>)
    requires
        forall|j: int| 0 <= j < events.len() ==> !(#[trigger] events[j] is OpenFailed),
    ensures
        forall|i: int|
            0 <= i < events.len() ==> match #[trigger] answer_at(path, events, i) {
                Some(action) => reads_only(action) && !action.touches_file(),
                None => true,
            },
{
    assert forall|i: int| 0 <= i < events.len() implies match #[trigger] answer_at(
        path,
        events,
        i,
    ) {
        Some(action) => reads_only(action) && !action.touches_file(),
        None => true,
    } by {
        let earlier = events.take(i);
        assert forall|j: int| 0 <= j < earlier.len() implies !(#[trigger] earlier[j]
            is OpenFailed) by {
            assert(earlier[j] == events[j]);
        }
        lemma_stays_on_read_path(path, earlier);
    }
}

/// A record comes out of a load only by parsing the file, and it is the
/// record that parsing gave.
///
/// Whatever the loader is told: if it finishes with a record, the event
/// it answered reported that very record as parsed, and the loader was
/// waiting for the file to be parsed.
pub proof fn lemma_record_comes_from_parsing(path: Seq<char>, events: Seq<EventView>, i: int)
    requires
        0 <= i < events.len(),
        answer_at(path, events, i) matches Some(ActionView::Finish(Ok(_))),
    ensures
        after(path, events.take(i)).phase is Parsing,
        events[i] is Parsed,
        answer_at(path, events, i) == Some(ActionView::Finish(Ok(events[i]->Parsed_0))),
{
}

/// A file that does not parse never yields a record.
///
/// If no parse of the file succeeds, then whatever else the loader is
/// told, no answer of it carries a record. Where it was waiting for the
/// parse and is told of the failure, it finishes with that failure, and
/// the line for the operator is `Failed to load config: ` followed by the
/// parser's account of it.
pub proof fn lemma_unparsable_file_is_fatal(path: Seq<char>, events: Seq<EventView>)
    requires
        forall|j: int| 0 <= j < events.len() ==> !(#[trigger] events[j] is Parsed),
    ensures
        forall|i: int|
            0 <= i < events.len() ==> !(#[trigger] answer_at(path, events, i) matches Some(
                ActionView::Finish(Ok(_)),
            )),
        forall|i: int|
            0 <= i < events.len() && after(path, events.take(i)).phase is Parsing
                && events[i] is ParseFailed ==> {
                let why = events[i]->ParseFailed_0;
                let failure = ConfigErrorView::ParseFailed { why };
                &&& #[trigger] answer_at(path, events, i) == Some(
                    ActionView::Finish(Err(failure)),
                )
                &&& failure.message() == "Failed to load config: "@ + why
                &&& occurs_in(why, failure.message())
            },
{
    assert forall|i: int| 0 <= i < events.len() implies !(#[trigger] answer_at(path, events, i)
        matches Some(ActionView::Finish(Ok(_)))) by {
        if answer_at(path, events, i) matches Some(ActionView::Finish(Ok(_))) {
            lemma_record_comes_from_parsing(path, events, i);
        }
    }
    assert forall|i: int|
        0 <= i < events.len() && after(path, events.take(i)).phase is Parsing
            && events[i] is ParseFailed implies {
        let why = events[i]->ParseFailed_0;
        let failure = ConfigErrorView::ParseFailed { why };
        &&& #[trigger] answer_at(path, events, i) == Some(ActionView::Finish(Err(failure)))
        &&& failure.message() == "Failed to load config: "@ + why
        &&& occurs_in(why, failure.message())
    } by {
        lemma_message_names_path_and_cause(
            ConfigErrorView::ParseFailed { why: events[i]->ParseFailed_0 },
        );
    }
}

/// The result of a load is handed out once.
///
/// After the answer that finishes the load, every further event is
/// refused and the loader stays finished.
pub proof fn lemma_finished_is_final(path: Seq<char>, events: Seq<EventView>, i: int, k: int)
    requires
        0 <= i < k < events.len(),
        answer_at(path, events, i) matches Some(ActionView::Finish(_)),
    ensures
        after(path, events.take(k)).phase is Finished,
        answer_at(path, events, k) is None,
    decreases k - i,
{
    let upto = events.take(k);
    assert(upto.drop_last() == events.take(k - 1));
    assert(upto.last() == events[k - 1]);
    if k - 1 == i {
    } else {
        lemma_finished_is_final(path, events, i, k - 1);
    }
}

/// What is written to a new file is the text of the blank record.
///
/// Whatever the loader is told: the only record it asks to have put into
/// text is the blank one, in the layout of a configuration file, and the
/// only text it asks to have written is the one reported as the outcome
/// of that, unchanged.
pub proof fn lemma_blank_record_is_written(path: Seq<char>, events: Seq<EventView>, i: int)
    requires
        0 <= i < events.len(),
    ensures
        answer_at(path, events, i) matches Some(ActionView::Serialize(config, layout)) ==> {
            &&& config == BotConfigView::blank()
            &&& layout == PrettyLayout::config_file()
            &&& events[i] is Created
        },
        answer_at(path, events, i) matches Some(ActionView::Write(text)) ==> {
            &&& after(path, events.take(i)).phase is Serializing
            &&& events[i] == EventView::Serialized(text)
        },
{
}

/// A load works on the file at its own path and on no other.
///
/// The file is opened once, by the action that begins the load: no answer
/// asks to open a file again. A file is created only at the path of the
/// load, and an error that names a path names that one, so the line for
/// the operator contains it.
pub proof fn lemma_only_the_given_path_is_used(path: Seq<char>, events: Seq<EventView>, i: int)
    requires
        0 <= i < events.len(),
    ensures
        !(answer_at(path, events, i) matches Some(ActionView::Open(_))),
        answer_at(path, events, i) matches Some(ActionView::Create(at)) ==> at == path,
        answer_at(path, events, i) matches Some(ActionView::Finish(Err(error))) ==> (error.path()
            is Some ==> error.path() == Some(path) && occurs_in(path, error.message())),
{
    lemma_path_is_kept(path, events.take(i));
    match answer_at(path, events, i) {
        Some(ActionView::Finish(Err(error))) => {
            lemma_message_names_path_and_cause(error);
        },
        _ => {},
    }
}

} // verus!
