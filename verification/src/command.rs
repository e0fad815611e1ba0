//! The reconciliation of a local playlist with the remote catalog.
//!
//! A run is a chain of steps. Each step names the one thing that is to be
//! done next: a search for a track, the creation of the remote playlist, the
//! appending of a matched track. The caller does it and hands the outcome to
//! the step, which answers with the step that follows, until the run is done.

use crate::error::Error;
use crate::itunes::{Playlist, Track};
use crate::spotify::{search_query, RemotePlaylist, RemoteTrack, SearchRequest, SpotifyWrapper};
use crate::text::{decimal, push_decimal};
use crate::util::{datetime_to_string, is_timestamp, resolve_playlist_name, resolved_name};
use vstd::prelude::*;

verus! {

/// What a run is asked to do beyond the matching.
#[derive(Clone, Debug, PartialEq, Eq)]
pub struct MatchOptions {
    /// Whether the matched tracks are put on a new remote playlist.
    pub create_remote: bool,
    /// The name of that playlist; a name is generated where none is given.
    pub remote_name: Option<String>,
    /// Whether the tracks that could not be matched are counted.
    pub report_mismatches: bool,
}

/// The outcome of a run: the matched tracks in the order of the local
/// playlist, and the counts.
#[derive(Debug, PartialEq, Eq)]
pub struct ReconciliationResult {
    pub matched: Vec<RemoteTrack>,
    pub matched_count: usize,
    pub mismatched_count: usize,
    pub total_count: usize,
}

/// Why a run ended without an outcome.
#[derive(Debug, PartialEq, Eq)]
pub enum WorkflowError {
    /// The local playlist could not be loaded.
    Load(Error),
    /// Not one track of the local playlist was matched.
    NoMatches { total_count: usize, mismatched_count: usize },
    /// A search failed otherwise than by finding none or several tracks.
    Fatal(Error),
    /// The remote playlist could not be created.
    Create(Error),
    /// A matched track could not be appended, after so many had been.
    Append { appended: usize, error: Error },
}

/// What the search for one track says about it.
pub enum Verdict {
    /// The catalog holds exactly this track.
    Matched,
    /// The catalog holds no such track, or several.
    Mismatched,
    /// The search itself failed.
    Fatal,
}

/// A run that is to search for the next track of its playlist.
pub struct Searching {
    pub playlist: Playlist,
    pub create_remote: bool,
    pub report_mismatches: bool,
    pub name: String,
    pub next: usize,
    pub matched: Vec<RemoteTrack>,
    pub mismatched: usize,
    /// How the searches of this run ended so far, in order.
    pub history: Ghost<Seq<Result<RemoteTrack, Error>>>,
}

/// A run that is to create the remote playlist.
pub struct Creating {
    pub result: ReconciliationResult,
    pub name: String,
}

/// A run that is to append the next matched track to the remote playlist.
pub struct Appending {
    pub result: ReconciliationResult,
    pub playlist: RemotePlaylist,
    pub next: usize,
}

/// Where a run stands.
pub enum MatchStep {
    Search(Searching),
    Create(Creating),
    Append(Appending),
    Done(Result<ReconciliationResult, WorkflowError>),
}

/// What the outcome of a search says about the track.
pub open spec fn verdict(event: Result<RemoteTrack, Error>) -> Verdict {
    match event {
        Ok(_) => Verdict::Matched,
        Err(e) => if e.kind.is_mismatch() {
            Verdict::Mismatched
        } else {
            Verdict::Fatal
        },
    }
}

/// The tracks that the searches found, in the order of the searches.
pub open spec fn matched_tracks(events: Seq<Result<RemoteTrack, Error>>) -> Seq<RemoteTrack>
    decreases events.len(),
{
    if events.len() == 0 {
        Seq::empty()
    } else {
        let before = matched_tracks(events.drop_last());
        match events.last() {
            Ok(track) => before.push(track),
            Err(_) => before,
        }
    }
}

/// The number of searches that found no track or several.
pub open spec fn mismatches(events: Seq<Result<RemoteTrack, Error>>) -> nat
    decreases events.len(),
{
    if events.len() == 0 {
        0
    } else {
        mismatches(events.drop_last()) + if verdict(events.last()) is Mismatched {
            1nat
        } else {
            0nat
        }
    }
}

/// The number of mismatches that a run reports: all of them, or none where
/// it was told not to count them.
pub open spec fn reported_mismatches(
    events: Seq<Result<RemoteTrack, Error>>,
    report_mismatches: bool,
) -> nat {
    if report_mismatches {
        mismatches(events)
    } else {
        0
    }
}

/// No search failed.
pub open spec fn none_fatal(events: Seq<Result<RemoteTrack, Error>>) -> bool {
    forall|i: int| 0 <= i < events.len() ==> !(#[trigger] verdict(events[i]) is Fatal)
}

/// The query with which a local track is searched for: by its name, its
/// artist and, where it has one, its album.
pub open spec fn track_query(track: Track) -> Seq<char> {
    search_query(
        track.name@,
        Some(track.artist@),
        match track.album {
            Some(album) => Some(album@),
            None => None,
        },
    )
}

/// How a run begins. A playlist that could not be loaded ends it at once,
/// and so does one without tracks, of which none can be matched. Any other
/// run begins with the search for its first track.
pub open spec fn begins(
    loaded: Result<Playlist, Error>,
    options: MatchOptions,
    name: Seq<char>,
    step: MatchStep,
) -> bool {
    match loaded {
        Err(e) => step == MatchStep::Done(Err(WorkflowError::Load(e))),
        Ok(playlist) => if playlist@.tracks.len() == 0 {
            step == MatchStep::Done(
                Err(WorkflowError::NoMatches { total_count: 0, mismatched_count: 0 }),
            )
        } else {
            &&& step is Search
            &&& step->Search_0.playlist == playlist
            &&& step->Search_0.create_remote == options.create_remote
            &&& step->Search_0.report_mismatches == options.report_mismatches
            &&& step->Search_0.name@ == name
            &&& step->Search_0.next == 0
            &&& step->Search_0.history@ == Seq::<Result<RemoteTrack, Error>>::empty()
        },
    }
}

impl ReconciliationResult {
    /// The counts agree with the list and with each other.
    pub open spec fn wf(&self) -> bool {
        &&& self.matched_count == self.matched@.len()
        &&& self.matched_count + self.mismatched_count <= self.total_count
    }

    /// This is the outcome of a run whose searches ended as `events` say.
    pub open spec fn sums_up(
        &self,
        events: Seq<Result<RemoteTrack, Error>>,
        report_mismatches: bool,
    ) -> bool {
        &&& self.matched@ == matched_tracks(events)
        &&& self.matched_count == matched_tracks(events).len()
        &&& self.mismatched_count == reported_mismatches(events, report_mismatches)
        &&& self.total_count == events.len()
    }

    /// The two lines that sum a run up for the user.
    pub fn summary(&self) -> (lines: Vec<String>)
        ensures
            lines@.len() == 2,
            lines@[0]@ == "matched tracks: "@ + decimal(self.matched@.len()),
            lines@[1]@ == "total tracks: "@ + decimal(self.total_count as nat),
    {
        let mut matched = "matched tracks: ".to_owned();
        push_decimal(&mut matched, self.matched.len() as u64);
        let mut total = "total tracks: ".to_owned();
        push_decimal(&mut total, self.total_count as u64);
        let mut lines: Vec<String> = Vec::new();
        lines.push(matched);
        lines.push(total);
        lines
    }
}

impl Searching {
    /// A track is left to search for, and what was gathered is what the
    /// searches so far gave.
    pub open spec fn wf(&self) -> bool {
        &&& self.next < self.playlist@.tracks.len()
        &&& self.history@.len() == self.next
        &&& none_fatal(self.history@)
        &&& self.matched@ == matched_tracks(self.history@)
        &&& self.mismatched == reported_mismatches(self.history@, self.report_mismatches)
    }

    /// The step that follows when the pending search ends as `event` says.
    ///
    /// A failed search ends the run. Otherwise the track is put behind the
    /// matched ones, or counted as a mismatch where mismatches are counted,
    /// and the next track is searched for. After the last track the run ends
    /// without an outcome where nothing was matched; else it ends with its
    /// outcome, or goes on to create the remote playlist where that was asked
    /// for.
    pub open spec fn leads_to(&self, event: Result<RemoteTrack, Error>, step: MatchStep) -> bool {
        let events = self.history@.push(event);
        if verdict(event) is Fatal {
            step == MatchStep::Done(Err(WorkflowError::Fatal(event->Err_0)))
        } else if self.next + 1 < self.playlist@.tracks.len() {
            &&& step is Search
            &&& step->Search_0.playlist == self.playlist
            &&& step->Search_0.create_remote == self.create_remote
            &&& step->Search_0.report_mismatches == self.report_mismatches
            &&& step->Search_0.name == self.name
            &&& step->Search_0.next == self.next + 1
            &&& step->Search_0.history@ == events
        } else if matched_tracks(events).len() == 0 {
            step == MatchStep::Done(
                Err(
                    WorkflowError::NoMatches {
                        total_count: events.len() as usize,
                        mismatched_count: reported_mismatches(
                            events,
                            self.report_mismatches,
                        ) as usize,
                    },
                ),
            )
        } else if self.create_remote {
            &&& step is Create
            &&& step->Create_0.name == self.name
            &&& step->Create_0.result.sums_up(events, self.report_mismatches)
        } else {
            &&& step is Done
            &&& step->Done_0 is Ok
            &&& step->Done_0->Ok_0.sums_up(events, self.report_mismatches)
        }
    }

    /// The local track that is searched for.
    pub fn track(&self) -> (track: &Track)
        requires
            self.wf(),
        ensures
            *track == self.playlist@.tracks[self.next as int],
    {
        self.playlist.track(self.next)
    }

    /// The search to perform.
    pub fn request(&self) -> (request: SearchRequest)
        requires
            self.wf(),
        ensures
            request.query@ == track_query(self.playlist@.tracks[self.next as int]),
            request.limit == 1,
            request.offset == 0,
    {
        let track = self.playlist.track(self.next);
        let album: Option<&str> = match &track.album {
            Some(album) => Some(album.as_str()),
            None => None,
        };
        SpotifyWrapper::search_request(track.name.as_str(), Some(track.artist.as_str()), album)
    }

    /// Takes the outcome of the search in and says how the run goes on.
    pub fn resume(self, event: Result<RemoteTrack, Error>) -> (step: MatchStep)
        requires
            self.wf(),
        ensures
            self.leads_to(event, step),
            step.wf(),
    {
        let ghost events = self.history@.push(event);
        proof {
            lemma_one_more_search(self.history@, event);
            lemma_counts_are_bounded(self.history@);
            lemma_counts_are_bounded(events);
        }
        let Searching {
            playlist,
            create_remote,
            report_mismatches,
            name,
            next,
            matched,
            mismatched,
            history,
        } = self;
        let total = playlist.len();
        let mut matched = matched;
        let mut mismatched = mismatched;
        match event {
            Ok(track) => {
                matched.push(track);
            },
            Err(e) => {
                if !e.is_mismatch() {
                    return MatchStep::Done(Err(WorkflowError::Fatal(e)));
                }
                if report_mismatches {
                    mismatched = mismatched + 1;
                }
            },
        }
        let next = next + 1;
        if next < total {
            MatchStep::Search(
                Searching {
                    playlist,
                    create_remote,
                    report_mismatches,
                    name,
                    next,
                    matched,
                    mismatched,
                    history: Ghost(events),
                },
            )
        } else if matched.len() == 0 {
            MatchStep::Done(
                Err(WorkflowError::NoMatches { total_count: total, mismatched_count: mismatched }),
            )
        } else {
            let result = ReconciliationResult {
                matched_count: matched.len(),
                matched,
                mismatched_count: mismatched,
                total_count: total,
            };
            if create_remote {
                MatchStep::Create(Creating { result, name })
            } else {
                MatchStep::Done(Ok(result))
            }
        }
    }
}

impl Creating {
    /// There is an outcome, with a track to append.
    pub open spec fn wf(&self) -> bool {
        &&& self.result.wf()
        &&& self.result.matched@.len() > 0
    }

    /// The step that follows when the creation ends as `event` says: the
    /// run ends where it failed, and goes on to append the first matched
    /// track where it gave a playlist.
    pub open spec fn leads_to(&self, event: Result<RemotePlaylist, Error>, step: MatchStep) -> bool {
        match event {
            Err(e) => step == MatchStep::Done(Err(WorkflowError::Create(e))),
            Ok(playlist) => step == MatchStep::Append(
                Appending { result: self.result, playlist, next: 0 },
            ),
        }
    }

    /// The name of the playlist to create.
    pub fn name(&self) -> (name: &str)
        ensures
            name@ == self.name@,
    {
        self.name.as_str()
    }

    /// Takes the outcome of the creation in and says how the run goes on.
    pub fn resume(self, event: Result<RemotePlaylist, Error>) -> (step: MatchStep)
        requires
            self.wf(),
        ensures
            self.leads_to(event, step),
            step.wf(),
    {
        match event {
            Err(e) => MatchStep::Done(Err(WorkflowError::Create(e))),
            Ok(playlist) => MatchStep::Append(Appending { result: self.result, playlist, next: 0 }),
        }
    }
}

impl Appending {
    /// There is an outcome, and a track of it left to append.
    pub open spec fn wf(&self) -> bool {
        &&& self.result.wf()
        &&& self.next < self.result.matched@.len()
    }

    /// The step that follows when the appending ends as `event` says: the
    /// run ends where it failed, keeping the number of tracks appended
    /// before; else the next matched track is appended, and after the last
    /// one the run ends with its outcome, which the appending has not
    /// changed.
    pub open spec fn leads_to(&self, event: Result<(), Error>, step: MatchStep) -> bool {
        match event {
            Err(e) => step == MatchStep::Done(
                Err(WorkflowError::Append { appended: self.next, error: e }),
            ),
            Ok(_) => if self.next + 1 < self.result.matched@.len() {
                step == MatchStep::Append(
                    Appending {
                        result: self.result,
                        playlist: self.playlist,
                        next: (self.next + 1) as usize,
                    },
                )
            } else {
                step == MatchStep::Done(Ok(self.result))
            },
        }
    }

    /// The id of the playlist to append to.
    pub fn playlist_id(&self) -> (id: &str)
        ensures
            id@ == self.playlist.id@,
    {
        self.playlist.id.as_str()
    }

    /// The reference of the track to append.
    pub fn track_uri(&self) -> (uri: &str)
        requires
            self.wf(),
        ensures
            uri@ == self.result.matched@[self.next as int].uri@,
    {
        self.result.matched[self.next].uri.as_str()
    }

    /// Takes the outcome of the appending in and says how the run goes on.
    pub fn resume(self, event: Result<(), Error>) -> (step: MatchStep)
        requires
            self.wf(),
        ensures
            self.leads_to(event, step),
            step.wf(),
    {
        match event {
            Err(e) => MatchStep::Done(Err(WorkflowError::Append { appended: self.next, error: e })),
            Ok(_) => {
                let next = self.next + 1;
                if next < self.result.matched.len() {
                    MatchStep::Append(
                        Appending { result: self.result, playlist: self.playlist, next },
                    )
                } else {
                    MatchStep::Done(Ok(self.result))
                }
            },
        }
    }
}

impl MatchStep {
    /// The run that stands at this step is in order.
    pub open spec fn wf(&self) -> bool {
        match self {
            MatchStep::Search(run) => run.wf(),
            MatchStep::Create(run) => run.wf(),
            MatchStep::Append(run) => run.wf(),
            MatchStep::Done(Ok(result)) => result.wf(),
            MatchStep::Done(Err(_)) => true,
        }
    }
}

/// Begins a run at the time that `timestamp` names.
pub fn match_playlist_at(
    loaded: Result<Playlist, Error>,
    options: MatchOptions,
    timestamp: &str,
) -> (step: MatchStep)
    ensures
        begins(loaded, options, resolved_name(options.remote_name, timestamp@), step),
        step.wf(),
{
    let playlist = match loaded {
        Ok(playlist) => playlist,
        Err(e) => {
            return MatchStep::Done(Err(WorkflowError::Load(e)));
        },
    };
    if playlist.is_empty() {
        return MatchStep::Done(
            Err(WorkflowError::NoMatches { total_count: 0, mismatched_count: 0 }),
        );
    }
    let MatchOptions { create_remote, remote_name, report_mismatches } = options;
    let name = resolve_playlist_name(remote_name, timestamp);
    MatchStep::Search(
        Searching {
            playlist,
            create_remote,
            report_mismatches,
            name,
            next: 0,
            matched: Vec::new(),
            mismatched: 0,
            history: Ghost(Seq::empty()),
        },
    )
}

/// Begins a run now: a playlist that is given no name is named after the
/// local time of the call.
pub fn match_playlist(loaded: Result<Playlist, Error>, options: MatchOptions) -> (step: MatchStep)
    ensures
        exists|timestamp: Seq<char>|
            is_timestamp(timestamp) && begins(
                loaded,
                options,
                #[trigger] resolved_name(options.remote_name, timestamp),
                step,
            ),
        step.wf(),
{
    let timestamp = datetime_to_string();
    let step = match_playlist_at(loaded, options, timestamp.as_str());
    assert(begins(loaded, options, resolved_name(options.remote_name, timestamp@), step));
    step
}

/// One search more adds its track to the matched ones, or one to the
/// mismatches, or nothing.
pub proof fn lemma_one_more_search(
    events: Seq<Result<RemoteTrack, Error>>,
    event: Result<RemoteTrack, Error>,
)
    ensures
        matched_tracks(events.push(event)) == match event {
            Ok(track) => matched_tracks(events).push(track),
            Err(_) => matched_tracks(events),
        },
        mismatches(events.push(event)) == mismatches(events) + if verdict(event) is Mismatched {
            1nat
        } else {
            0nat
        },
        none_fatal(events) && !(verdict(event) is Fatal) ==> none_fatal(events.push(event)),
{
    assert(events.push(event).drop_last() =~= events);
    assert(events.push(event).last() == event);
}

/// Every search is counted once: as a match, as a mismatch, or as a
/// failure. So where none failed, the matches and the mismatches add up to
/// the number of tracks searched for.
pub proof fn lemma_counts_are_bounded(events: Seq<Result<RemoteTrack, Error>>)
    ensures
        matched_tracks(events).len() + mismatches(events) <= events.len(),
        none_fatal(events) ==> matched_tracks(events).len() + mismatches(events) == events.len(),
    decreases events.len(),
{
    if events.len() > 0 {
        lemma_counts_are_bounded(events.drop_last());
        if none_fatal(events) {
            assert forall|i: int| 0 <= i < events.drop_last().len() implies !(#[trigger] verdict(
                events.drop_last()[i],
            ) is Fatal) by {
                assert(events.drop_last()[i] == events[i]);
            }
            assert(!(verdict(events[events.len() - 1]) is Fatal));
        }
    }
}

/// A run over a playlist without tracks ends before it has begun: nothing
/// is matched and the total is zero, whatever the run was asked to do, the
/// creation of a remote playlist included.
pub proof fn lemma_empty_playlist_matches_nothing(
    playlist: Playlist,
    options: MatchOptions,
    name: Seq<char>,
    step: MatchStep,
)
    requires
        playlist@.tracks.len() == 0,
        begins(Ok(playlist), options, name, step),
    ensures
        step == MatchStep::Done(
            Err(WorkflowError::NoMatches { total_count: 0, mismatched_count: 0 }),
        ),
{
}

/// A run that was not asked to create a remote playlist never turns to
/// creating one: after each search it either searches on, still not asked
/// to, or is done.
pub proof fn lemma_without_creation_nothing_is_created(
    run: Searching,
    event: Result<RemoteTrack, Error>,
    step: MatchStep,
)
    requires
        run.wf(),
        !run.create_remote,
        run.leads_to(event, step),
    ensures
        step is Search || step is Done,
        step is Search ==> !step->Search_0.create_remote,
{
}

/// The creation of the remote playlist changes nothing of what was matched
/// and counted. Two runs that differ only in whether they were asked for it
/// come, after the same searches, to the same outcome: the one is done with
/// it where the other takes it on to the creation.
pub proof fn lemma_creation_leaves_the_outcome(
    plain: Searching,
    creating: Searching,
    event: Result<RemoteTrack, Error>,
    plain_step: MatchStep,
    creating_step: MatchStep,
)
    requires
        plain.wf(),
        creating.wf(),
        !plain.create_remote,
        creating.create_remote,
        plain.playlist == creating.playlist,
        plain.report_mismatches == creating.report_mismatches,
        plain.history@ == creating.history@,
        plain.leads_to(event, plain_step),
        creating.leads_to(event, creating_step),
    ensures
        plain_step is Done && plain_step->Done_0 is Ok ==> creating_step is Create && {
            let alone = plain_step->Done_0->Ok_0;
            let taken_on = creating_step->Create_0.result;
            &&& taken_on.matched@ == alone.matched@
            &&& taken_on.matched_count == alone.matched_count
            &&& taken_on.mismatched_count == alone.mismatched_count
            &&& taken_on.total_count == alone.total_count
        },
        plain_step is Done && plain_step->Done_0 is Err ==> creating_step == plain_step,
        plain_step is Search ==> creating_step is Search,
{
}

/// Two runs over as many tracks whose searches agree, one by one, on
/// match, mismatch or failure, end with the same counts: running the
/// matching again while the catalog stays as it is changes no count.
pub proof fn lemma_rerun_counts_the_same(
    first: Seq<Result<RemoteTrack, Error>>,
    second: Seq<Result<RemoteTrack, Error>>,
    report_mismatches: bool,
    first_result: ReconciliationResult,
    second_result: ReconciliationResult,
)
    requires
        first.len() == second.len(),
        forall|i: int| 0 <= i < first.len() ==> verdict(first[i]) == verdict(second[i]),
        first_result.sums_up(first, report_mismatches),
        second_result.sums_up(second, report_mismatches),
    ensures
        first_result.matched_count == second_result.matched_count,
        first_result.mismatched_count == second_result.mismatched_count,
        first_result.total_count == second_result.total_count,
{
    lemma_counts_follow_verdicts(first, second);
}

/// The counts of a run depend on its searches only through what each of
/// them says about its track: two runs over as many tracks whose searches
/// agree, one by one, on match, mismatch or failure, count the same.
pub proof fn lemma_counts_follow_verdicts(
    first: Seq<Result<RemoteTrack, Error>>,
    second: Seq<Result<RemoteTrack, Error>>,
)
    requires
        first.len() == second.len(),
        forall|i: int| 0 <= i < first.len() ==> verdict(first[i]) == verdict(second[i]),
    ensures
        matched_tracks(first).len() == matched_tracks(second).len(),
        mismatches(first) == mismatches(second),
        none_fatal(first) == none_fatal(second),
    decreases first.len(),
{
    if first.len() > 0 {
        lemma_counts_follow_verdicts(first.drop_last(), second.drop_last());
        assert(verdict(first.last()) == verdict(second.last()));
    }
    if none_fatal(first) {
        assert forall|i: int| 0 <= i < second.len() implies !(#[trigger] verdict(second[i])
            is Fatal) by {
            assert(verdict(first[i]) == verdict(second[i]));
        }
    }
    if none_fatal(second) {
        assert forall|i: int| 0 <= i < first.len() implies !(#[trigger] verdict(first[i])
            is Fatal) by {
            assert(verdict(first[i]) == verdict(second[i]));
        }
    }
}

} // verus!
