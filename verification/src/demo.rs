//! Bookmarks of a replay and what is kept of them beside the replay file.

use crate::state::opt_text;
use vstd::prelude::*;

verus! {

/// A bookmark: a titled tick of a replay.
#[derive(Debug, Default, PartialEq, Eq)]
pub struct Event {
    pub tick: u32,
    pub title: String,
    pub ev_type: String,
}

/// A bookmark as the contracts see it.
pub struct EventView {
    pub tick: u32,
    pub title: Seq<char>,
    pub ev_type: Seq<char>,
}

impl View for Event {
    type V = EventView;

    open spec fn view(&self) -> EventView {
        EventView { tick: self.tick, title: self.title@, ev_type: self.ev_type@ }
    }
}

impl Clone for Event {
    fn clone(&self) -> (r: Self)
        ensures
            r@ == self@,
    {
        Event { tick: self.tick, title: self.title.clone(), ev_type: self.ev_type.clone() }
    }
}

/// Views of a list of bookmarks.
pub open spec fn bookmarks(events: Seq<Event>) -> Seq<EventView> {
    events.map_values(|e: Event| e@)
}

/// The list `s` with `e` put in behind the last bookmark that is not later
/// than `e`.
pub open spec fn inserted(s: Seq<EventView>, e: EventView) -> Seq<EventView>
    decreases s.len(),
{
    if s.len() > 0 && s.last().tick > e.tick {
        inserted(s.drop_last(), e).push(s.last())
    } else {
        s.push(e)
    }
}

/// The bookmarks of `s` in the order of their ticks, those of one tick in
/// the order they have in `s`.
pub open spec fn in_tick_order(s: Seq<EventView>) -> Seq<EventView>
    decreases s.len(),
{
    if s.len() == 0 {
        Seq::empty()
    } else {
        inserted(in_tick_order(s.drop_last()), s.last())
    }
}

/// The ticks of `s` never go back.
pub open spec fn ticks_rise(s: Seq<EventView>) -> bool {
    forall|i: int, j: int|
        0 <= i <= j < s.len() ==> (#[trigger] s[i]).tick <= (#[trigger] s[j]).tick
}

/// The notes that are kept: none where there are none or they are empty.
pub open spec fn kept_notes(notes: Option<Seq<char>>) -> Option<Seq<char>> {
    match notes {
        Some(text) if text.len() > 0 => Some(text),
        _ => None,
    }
}

/// What is kept beside a replay with these bookmarks and notes: nothing
/// where there is neither a bookmark nor a note, else the bookmarks in the
/// order of their ticks and the notes.
pub open spec fn sidecar_of(events: Seq<EventView>, notes: Option<Seq<char>>) -> Option<
    (Seq<EventView>, Option<Seq<char>>),
> {
    if kept_notes(notes) is None && events.len() == 0 {
        None
    } else {
        Some((in_tick_order(events), kept_notes(notes)))
    }
}

/// View of what is kept beside a replay.
pub open spec fn sidecar_view(sidecar: Option<(Vec<Event>, Option<String>)>) -> Option<
    (Seq<EventView>, Option<Seq<char>>),
> {
    match sidecar {
        Some((events, notes)) => Some((bookmarks(events@), opt_text(notes))),
        None => None,
    }
}

/// Putting a bookmark in is inserting it behind the bookmarks from `at` on,
/// all of them later than it, where the one before `at` is not later.
pub proof fn lemma_inserted_at(s: Seq<EventView>, e: EventView, at: int)
    requires
        0 <= at <= s.len(),
        forall|k: int| at <= k < s.len() ==> (#[trigger] s[k]).tick > e.tick,
        at > 0 ==> s[at - 1].tick <= e.tick,
    ensures
        inserted(s, e) == s.insert(at, e),
    decreases s.len() - at,
{
    if at < s.len() {
        lemma_inserted_at(s.drop_last(), e, at);
    }
}

/// Putting a bookmark into a list in the order of ticks keeps that order and
/// adds nothing but the bookmark.
pub proof fn lemma_inserted(s: Seq<EventView>, e: EventView)
    requires
        ticks_rise(s),
    ensures
        ticks_rise(inserted(s, e)),
        inserted(s, e).to_multiset() == s.to_multiset().insert(e),
        inserted(s, e).len() == s.len() + 1,
    decreases s.len(),
{
    broadcast use vstd::seq_lib::group_to_multiset_ensures;

    if s.len() > 0 && s.last().tick > e.tick {
        let front = s.drop_last();
        assert(ticks_rise(front));
        lemma_inserted(front, e);
        let mid = inserted(front, e);
        let out = mid.push(s.last());
        assert(front.push(s.last()) =~= s);
        assert forall|i: int, j: int| 0 <= i <= j < out.len() implies (#[trigger] out[i]).tick <= (
        #[trigger] out[j]).tick by {
            if i < j == out.len() - 1 {
                // What stands in front of the last bookmark came from
                // `front` or is `e`.
                assert(mid.to_multiset().count(mid[i]) > 0);
            }
        }
    } else {
        assert(ticks_rise(s.push(e)));
    }
}

/// The bookmarks in the order of their ticks are the same bookmarks, and
/// their ticks never go back.
pub proof fn law_in_tick_order(s: Seq<EventView>)
    ensures
        ticks_rise(in_tick_order(s)),
        in_tick_order(s).to_multiset() == s.to_multiset(),
        in_tick_order(s).len() == s.len(),
    decreases s.len(),
{
    broadcast use vstd::seq_lib::group_to_multiset_ensures;

    if s.len() > 0 {
        law_in_tick_order(s.drop_last());
        lemma_inserted(in_tick_order(s.drop_last()), s.last());
        assert(s.drop_last().push(s.last()) =~= s);
    }
}

/// The bookmarks of `events` in the order of their ticks, those of one tick
/// in the order they came in.
pub fn sorted_events(events: &Vec<Event>) -> (r: Vec<Event>)
    ensures
        bookmarks(r@) == in_tick_order(bookmarks(events@)),
{
    let mut out: Vec<Event> = Vec::new();
    let mut i: usize = 0;
    while i < events.len()
        invariant
            i <= events.len(),
            out.len() == i,
            bookmarks(out@) == in_tick_order(bookmarks(events@).take(i as int)),
        decreases events.len() - i,
    {
        let ghost before = bookmarks(out@);
        let e = events[i].clone();
        let mut at = out.len();
        while at > 0 && out[at - 1].tick > e.tick
            invariant
                at <= out.len(),
                forall|k: int|
                    at <= k < out.len() ==> (#[trigger] bookmarks(out@)[k]).tick > e.tick,
            decreases at,
        {
            at -= 1;
        }
        proof {
            lemma_inserted_at(before, e@, at as int);
            let upto = bookmarks(events@).take(i + 1);
            assert(upto.drop_last() =~= bookmarks(events@).take(i as int));
        }
        out.insert(at, e);
        i += 1;
    }
    assert(bookmarks(events@).take(events.len() as int) =~= bookmarks(events@));
    out
}

/// What is to be kept beside a replay with these bookmarks and notes;
/// nothing means that no file is to be kept beside it.
pub fn sidecar(events: &Vec<Event>, notes: &Option<String>) -> (r: Option<
    (Vec<Event>, Option<String>),
>)
    ensures
        sidecar_view(r) == sidecar_of(bookmarks(events@), opt_text(*notes)),
{
    let kept = match notes {
        Some(text) => if text.as_str().is_empty() {
            None
        } else {
            Some(text.clone())
        },
        None => None,
    };
    if kept.is_none() && events.len() == 0 {
        None
    } else {
        Some((sorted_events(events), kept))
    }
}

/// The first year that a replay's date can be written for.
pub const REPLAY_EPOCH: u32 = 2009;

/// The date of a replay as the game packs it into one number: the day of
/// the month, counted from 0, in the low five bits, the month, counted from
/// 0, in the four bits above, and the years since [`REPLAY_EPOCH`] above
/// those.
pub open spec fn packed_date(day: u32, month: u32, year: u32) -> u32 {
    ((day - 1) as u32) | (((month - 1) as u32) << 5) | (((year - REPLAY_EPOCH) as u32) << 9)
}

/// The time of day of a replay as the game packs it into one number: the
/// hour in the low five bits, the minute in the six bits above, and the
/// second above those.
pub open spec fn packed_time(hour: u32, minute: u32, second: u32) -> u32 {
    hour | (minute << 5) | (second << 11)
}

/// Packs the date of a replay into the number that the game keeps.
pub fn replay_date(day: u32, month: u32, year: u32) -> (r: u32)
    requires
        1 <= day,
        1 <= month,
        REPLAY_EPOCH <= year,
    ensures
        r == packed_date(day, month, year),
{
    (day - 1) | ((month - 1) << 5) | ((year - REPLAY_EPOCH) << 9)
}

/// Packs the time of day of a replay into the number that the game keeps.
pub fn replay_time(hour: u32, minute: u32, second: u32) -> (r: u32)
    ensures
        r == packed_time(hour, minute, second),
{
    hour | (minute << 5) | (second << 11)
}

/// A date of the calendar, not too far in the future, can be read back from
/// its packed form.
pub proof fn law_packed_date_reads_back(day: u32, month: u32, year: u32)
    requires
        1 <= day <= 31,
        1 <= month <= 12,
        REPLAY_EPOCH <= year < REPLAY_EPOCH + 0x80_0000,
    ensures
        packed_date(day, month, year) & 31 == day - 1,
        (packed_date(day, month, year) >> 5) & 15 == month - 1,
        packed_date(day, month, year) >> 9 == year - REPLAY_EPOCH,
{
    let d = (day - 1) as u32;
    let m = (month - 1) as u32;
    let y = (year - REPLAY_EPOCH) as u32;
    assert((d | (m << 5) | (y << 9)) & 31 == d && ((d | (m << 5) | (y << 9)) >> 5) & 15 == m && (d
        | (m << 5) | (y << 9)) >> 9 == y) by (bit_vector)
        requires
            d < 32,
            m < 16,
            y < 0x80_0000,
    ;
}

/// A time of day can be read back from its packed form.
pub proof fn law_packed_time_reads_back(hour: u32, minute: u32, second: u32)
    requires
        hour < 24,
        minute < 60,
        second < 60,
    ensures
        packed_time(hour, minute, second) & 31 == hour,
        (packed_time(hour, minute, second) >> 5) & 63 == minute,
        packed_time(hour, minute, second) >> 11 == second,
{
    assert((hour | (minute << 5) | (second << 11)) & 31 == hour && ((hour | (minute << 5) | (second
        << 11)) >> 5) & 63 == minute && (hour | (minute << 5) | (second << 11)) >> 11 == second)
        by (bit_vector)
        requires
            hour < 24,
            minute < 60,
            second < 60,
    ;
}

} // verus!
