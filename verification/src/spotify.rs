//! The remote catalog: what is asked of it and how its answers are read.
//!
//! Nothing in this module performs a call. Each remote operation is split in
//! the request that is to be sent and the reading of what came back, so that
//! the caller, who owns the connection, only sends, sleeps and hands answers
//! in.

use crate::error::{Error, ErrorKind};
use crate::text::{decimal, push_decimal};
use crate::types::DisplayTrack;
use vstd::prelude::*;
use vstd::string::*;

verus! {

/// Where the authorization flow sends the user back to.
pub const SPOTIFY_CLIENT_REDIRECT_URI: &'static str = "http://localhost:8080/";

/// The permissions that the library asks of the user.
pub const SPOTIFY_SCOPE: &'static str =
    "user-read-recently-played playlist-read-private playlist-modify-private";

/// The seconds to wait after a rate-limit answer that names no delay.
pub const DEFAULT_BACKOFF_SECONDS: u64 = 10;

/// The number of playlists asked for with each page of a listing.
pub const PLAYLIST_PAGE_LIMIT: u32 = 20;

/// A bearer token and the time, in seconds since the epoch, at which it
/// expires, where the service told it.
#[derive(Clone, Debug, PartialEq, Eq)]
pub struct Credential {
    pub access_token: String,
    pub expires_at: Option<i64>,
}

/// What the authorization flow is started with.
#[derive(Clone, Debug, PartialEq, Eq)]
pub struct OAuthSettings {
    pub client_id: String,
    pub client_secret: String,
    pub redirect_uri: String,
    pub scope: String,
}

/// A track of the remote catalog.
#[derive(Clone, Debug, PartialEq, Eq)]
pub struct RemoteTrack {
    pub name: String,
    pub artists: Vec<String>,
    pub album: String,
    pub uri: String,
}

/// A playlist of the remote service.
#[derive(Clone, Debug, PartialEq, Eq)]
pub struct RemotePlaylist {
    pub id: String,
    pub name: String,
    pub uri: String,
}

/// One page of a paged answer: the items on it, the number of items that the
/// whole answer has, and whether a further page follows.
#[derive(Clone, Debug, PartialEq, Eq)]
pub struct Page<T> {
    pub items: Vec<T>,
    pub total: u32,
    pub has_next: bool,
}

/// How the remote service can turn a call down.
#[derive(Clone, Copy, Debug, PartialEq, Eq)]
pub enum ApiFailure {
    /// The credential was not accepted.
    Unauthorized,
    /// Too many calls; the service may say after how many seconds to come back.
    RateLimited(Option<usize>),
    /// Any other failure, with the status code of the answer.
    Other(u16),
}

/// What to do about the answer to a remote call.
#[derive(Debug, PartialEq, Eq)]
pub enum CallStep<R> {
    /// The call succeeded with this value.
    Return(R),
    /// The call failed for good with this error.
    Fail(Error),
    /// Wait for so many seconds, then make the same call again.
    Backoff { seconds: u64 },
    /// The service failed in a way the library cannot classify: the run
    /// cannot go on.
    Abort { status_code: u16 },
}

/// A search for tracks: the query, the number of results asked for, and the
/// position of the first of them.
#[derive(Clone, Debug, PartialEq, Eq)]
pub struct SearchRequest {
    pub query: String,
    pub limit: u32,
    pub offset: u32,
}

/// The request that creates a playlist for a user.
#[derive(Clone, Debug, PartialEq, Eq)]
pub struct CreatePlaylistRequest {
    pub user_id: String,
    pub name: String,
    pub public: bool,
    pub description: Option<String>,
}

/// How a search for one track ended.
#[derive(Clone, Debug, PartialEq, Eq)]
pub enum SearchOutcome {
    /// The catalog holds exactly one such track.
    Matched(RemoteTrack),
    /// The catalog holds none.
    NoResults,
    /// The catalog holds this many, more than one.
    Ambiguous(u32),
}

/// A listing in progress: the items gathered from the pages read so far, and
/// the limit and offset with which the next page is to be asked for.
#[derive(Clone, Debug, PartialEq, Eq)]
pub struct Pager<T> {
    pub items: Vec<T>,
    pub limit: u32,
    pub offset: u32,
}

/// How a listing goes on after a page.
#[derive(Debug, PartialEq, Eq)]
pub enum PagerStep<T> {
    /// Ask for the next page, with the limit and offset of this listing.
    Fetch(Pager<T>),
    /// The listing is complete: these are its items, in the order read.
    Done(Vec<T>),
}

/// The text of an optional string.
pub open spec fn text_of(s: Option<&str>) -> Option<Seq<char>> {
    match s {
        Some(t) => Some(t@),
        None => None,
    }
}

/// The query for a track: its name, then the artist behind ` artist:` where
/// one is given, then the album behind ` album:` where one is given. Nothing
/// is escaped or quoted.
pub open spec fn search_query(
    name: Seq<char>,
    artist: Option<Seq<char>>,
    album: Option<Seq<char>>,
) -> Seq<char> {
    let with_artist = match artist {
        Some(a) => name + " artist:"@ + a,
        None => name,
    };
    match album {
        Some(b) => with_artist + " album:"@ + b,
        None => with_artist,
    }
}

/// The seconds to wait after a rate-limit answer.
pub open spec fn backoff_seconds(retry_after: Option<usize>) -> u64 {
    match retry_after {
        Some(d) => d as u64,
        None => DEFAULT_BACKOFF_SECONDS,
    }
}

/// The decision about the answer to a remote call. A success is handed on
/// unchanged; a rejected credential fails the call at once; a rate-limit
/// answer is met with a pause and another attempt, whatever came before;
/// any other failure ends the run.
pub open spec fn call_step<R>(response: Result<R, ApiFailure>) -> CallStep<R> {
    match response {
        Ok(v) => CallStep::Return(v),
        Err(ApiFailure::Unauthorized) => CallStep::Fail(Error { kind: ErrorKind::Unauthorized }),
        Err(ApiFailure::RateLimited(d)) => CallStep::Backoff { seconds: backoff_seconds(d) },
        Err(ApiFailure::Other(status_code)) => CallStep::Abort { status_code },
    }
}

/// The names of `artists`, each followed by `"; "`.
pub open spec fn joined_artists(artists: Seq<String>) -> Seq<char>
    decreases artists.len(),
{
    if artists.len() == 0 {
        Seq::empty()
    } else {
        joined_artists(artists.drop_last()) + artists.last()@ + "; "@
    }
}

impl<T> Page<T> {
    /// A page that reports a single result also carries it.
    pub open spec fn carries_single_result(&self) -> bool {
        self.total == 1 ==> self.items@.len() >= 1
    }
}

impl Page<RemoteTrack> {
    /// How the search that this page answers ended. The reported total
    /// decides, not the number of items on the page.
    pub open spec fn outcome(&self) -> SearchOutcome {
        if self.total == 0 {
            SearchOutcome::NoResults
        } else if self.total == 1 {
            SearchOutcome::Matched(self.items@[0])
        } else {
            SearchOutcome::Ambiguous(self.total)
        }
    }

    /// Classifies the answer to a search for one track.
    pub fn classify(self) -> (outcome: SearchOutcome)
        requires
            self.carries_single_result(),
        ensures
            outcome == self.outcome(),
    {
        if self.total == 0 {
            SearchOutcome::NoResults
        } else if self.total > 1 {
            SearchOutcome::Ambiguous(self.total)
        } else {
            let mut items = self.items;
            SearchOutcome::Matched(items.remove(0))
        }
    }
}

impl SearchOutcome {
    /// The outcome as the result of a search that wants exactly one track.
    pub open spec fn as_result(self) -> Result<RemoteTrack, Error> {
        match self {
            SearchOutcome::Matched(track) => Ok(track),
            SearchOutcome::NoResults => Err(Error { kind: ErrorKind::NoResults }),
            SearchOutcome::Ambiguous(count) => Err(Error { kind: ErrorKind::MultipleResults(count) }),
        }
    }

    pub fn into_result(self) -> (r: Result<RemoteTrack, Error>)
        ensures
            r == self.as_result(),
    {
        match self {
            SearchOutcome::Matched(track) => Ok(track),
            SearchOutcome::NoResults => Err(Error::new(ErrorKind::NoResults)),
            SearchOutcome::Ambiguous(count) => Err(Error::new(ErrorKind::MultipleResults(count))),
        }
    }
}

impl<T> Pager<T> {
    /// A listing that has read nothing yet.
    pub fn new(limit: u32) -> (pager: Pager<T>)
        ensures
            pager.items@ == Seq::<T>::empty(),
            pager.limit == limit,
            pager.offset == 0,
    {
        Pager { items: Vec::new(), limit, offset: 0 }
    }

    /// Takes the page that was asked for in. Its items go behind those
    /// already gathered. Where the page says that another follows, the
    /// listing goes on with the offset advanced by one: the offset counts
    /// pages, not items. Where it says that none follows, the listing ends
    /// with all the items.
    pub fn resume(self, page: Page<T>) -> (step: PagerStep<T>)
        requires
            page.has_next ==> self.offset < u32::MAX,
        ensures
            page.has_next ==> step is Fetch && step->Fetch_0.items@ == self.items@ + page.items@
                && step->Fetch_0.limit == self.limit && step->Fetch_0.offset == self.offset + 1,
            !page.has_next ==> step is Done && step->Done_0@ == self.items@ + page.items@,
    {
        let mut items = self.items;
        let mut fresh = page.items;
        items.append(&mut fresh);
        if page.has_next {
            PagerStep::Fetch(Pager { items, limit: self.limit, offset: self.offset + 1 })
        } else {
            PagerStep::Done(items)
        }
    }

    /// Takes the outcome of the fetch of a page in. A page goes into the
    /// listing as `resume` says. A fetch that failed ends the listing with
    /// its error: what was gathered so far is given up, and no further page
    /// is asked for.
    pub fn resume_fetched(self, fetched: Result<Page<T>, Error>) -> (r: Result<PagerStep<T>, Error>)
        requires
            fetched is Ok && fetched->Ok_0.has_next ==> self.offset < u32::MAX,
        ensures
            fetched is Err ==> r == Err::<PagerStep<T>, Error>(fetched->Err_0),
            fetched is Ok ==> r is Ok,
            fetched is Ok && fetched->Ok_0.has_next ==> r->Ok_0 is Fetch
                && r->Ok_0->Fetch_0.items@ == self.items@ + fetched->Ok_0.items@
                && r->Ok_0->Fetch_0.limit == self.limit && r->Ok_0->Fetch_0.offset == self.offset
                + 1,
            fetched is Ok && !fetched->Ok_0.has_next ==> r->Ok_0 is Done && r->Ok_0->Done_0@
                == self.items@ + fetched->Ok_0.items@,
    {
        match fetched {
            Ok(page) => Ok(self.resume(page)),
            Err(e) => Err(e),
        }
    }
}

/// The pauses of a call whose attempts are answered by `responses`, one
/// after the other: one pause for each rate-limit answer that comes before
/// the first answer of another kind.
pub open spec fn pauses<R>(responses: Seq<Result<R, ApiFailure>>) -> Seq<u64>
    decreases responses.len(),
{
    if responses.len() == 0 {
        Seq::empty()
    } else {
        match call_step(responses[0]) {
            CallStep::Backoff { seconds } => seq![seconds] + pauses(responses.drop_first()),
            _ => Seq::empty(),
        }
    }
}

/// How a call ends whose attempts are answered by `responses`, one after
/// the other: with the decision about the first answer that is no
/// rate-limit answer. `None` where there is no such answer: the call is
/// still being retried.
pub open spec fn call_end<R>(responses: Seq<Result<R, ApiFailure>>) -> Option<CallStep<R>>
    decreases responses.len(),
{
    if responses.len() == 0 {
        None
    } else {
        match call_step(responses[0]) {
            CallStep::Backoff { .. } => call_end(responses.drop_first()),
            step => Some(step),
        }
    }
}

/// The answers of a service that turns a call down for its rate, once for
/// each entry of `delays`, each time naming that delay.
pub open spec fn rate_limited<R>(delays: Seq<Option<usize>>) -> Seq<Result<R, ApiFailure>> {
    Seq::new(delays.len(), |i: int| Err(ApiFailure::RateLimited(delays[i])))
}

/// A search ends in exactly one of three ways, and the reported total alone
/// says in which: none for a total of zero, a match for a total of one,
/// and an ambiguity that carries the total for any larger total.
pub proof fn lemma_outcome_by_total(page: Page<RemoteTrack>)
    ensures
        page.total == 0 <==> page.outcome() is NoResults,
        page.total == 1 <==> page.outcome() is Matched,
        page.total > 1 <==> page.outcome() is Ambiguous,
        page.total > 1 ==> page.outcome() == SearchOutcome::Ambiguous(page.total),
        page.total == 1 ==> page.outcome() == SearchOutcome::Matched(page.items@[0]),
        !(page.outcome() is NoResults && page.outcome() is Matched),
        !(page.outcome() is NoResults && page.outcome() is Ambiguous),
        !(page.outcome() is Matched && page.outcome() is Ambiguous),
        page.outcome() is NoResults || page.outcome() is Matched || page.outcome() is Ambiguous,
{
}

/// A call that is turned down for its rate any number of times in a row is
/// paused that many times, each time for as long as the answer asks (ten
/// seconds where it names no delay), and is never given up: it stays open
/// until an answer of another kind comes, that answer decides as if it
/// had been the first, and the pauses are those of the answers before it
/// and no others.
pub proof fn lemma_backoff_never_gives_up<R>(delays: Seq<Option<usize>>, next: Result<R, ApiFailure>)
    ensures
        pauses(rate_limited::<R>(delays)) == Seq::new(
            delays.len(),
            |i: int| backoff_seconds(delays[i]),
        ),
        call_end(rate_limited::<R>(delays)) is None,
        !(call_step(next) is Backoff) ==> pauses(rate_limited::<R>(delays).push(next)) == Seq::new(
            delays.len(),
            |i: int| backoff_seconds(delays[i]),
        ),
        call_step(next) is Backoff ==> pauses(rate_limited::<R>(delays).push(next)) == Seq::new(
            delays.len(),
            |i: int| backoff_seconds(delays[i]),
        ).push(call_step(next)->seconds),
        call_end(rate_limited::<R>(delays).push(next)) == if call_step(next) is Backoff {
            None
        } else {
            Some(call_step(next))
        },
    decreases delays.len(),
{
    let responses = rate_limited::<R>(delays);
    if delays.len() == 0 {
        assert(responses.push(next).drop_first() =~= Seq::empty());
        assert(responses.push(next)[0] == next);
        assert(call_end(Seq::<Result<R, ApiFailure>>::empty()) is None);
        assert(pauses(Seq::<Result<R, ApiFailure>>::empty()) =~= Seq::empty());
        assert(pauses(responses.push(next)) =~= if call_step(next) is Backoff {
            seq![call_step(next)->seconds]
        } else {
            Seq::empty()
        });
    } else {
        let rest = delays.drop_first();
        lemma_backoff_never_gives_up::<R>(rest, next);
        assert(responses.drop_first() =~= rate_limited::<R>(rest));
        assert(responses.push(next).drop_first() =~= rate_limited::<R>(rest).push(next));
        assert(responses.push(next)[0] == responses[0]);
        let tail = Seq::new(rest.len(), |i: int| backoff_seconds(rest[i]));
        let all = Seq::new(delays.len(), |i: int| backoff_seconds(delays[i]));
        assert(seq![backoff_seconds(delays[0])] + tail =~= all);
        if call_step(next) is Backoff {
            let last = call_step(next)->seconds;
            assert(seq![backoff_seconds(delays[0])] + tail.push(last) =~= all.push(last));
        }
    }
}

/// The failure that an answer with an error status stands for: a rejected
/// credential for status 401, a rate limit for status 429, with the delay
/// that the answer names in its `Retry-After` header where it names one,
/// and any other failure, with its status, for every other status.
pub open spec fn failure_of(status: u16, retry_after: Option<usize>) -> ApiFailure {
    if status == 401 {
        ApiFailure::Unauthorized
    } else if status == 429 {
        ApiFailure::RateLimited(retry_after)
    } else {
        ApiFailure::Other(status)
    }
}

/// Classifies an answer with an error status.
pub fn classify_failure(status: u16, retry_after: Option<usize>) -> (f: ApiFailure)
    ensures
        f == failure_of(status, retry_after),
{
    if status == 401 {
        ApiFailure::Unauthorized
    } else if status == 429 {
        ApiFailure::RateLimited(retry_after)
    } else {
        ApiFailure::Other(status)
    }
}

/// The settings with which the authorization flow is started for an
/// application.
pub fn oauth_settings(spotify_client_id: &str, spotify_client_secret: &str) -> (settings:
    OAuthSettings)
    ensures
        settings.client_id@ == spotify_client_id@,
        settings.client_secret@ == spotify_client_secret@,
        settings.redirect_uri@ == SPOTIFY_CLIENT_REDIRECT_URI@,
        settings.scope@ == SPOTIFY_SCOPE@,
{
    OAuthSettings {
        client_id: spotify_client_id.to_owned(),
        client_secret: spotify_client_secret.to_owned(),
        redirect_uri: SPOTIFY_CLIENT_REDIRECT_URI.to_owned(),
        scope: SPOTIFY_SCOPE.to_owned(),
    }
}

/// Reads the end of the authorization flow: the credential where the flow
/// gave one, an authentication failure where it gave none.
pub fn authenticate(token: Option<Credential>) -> (r: Result<Credential, Error>)
    ensures
        token is Some ==> r == Ok::<Credential, Error>(token->0),
        token is None ==> r is Err && r->Err_0.kind is AuthenticationFailure
            && r->Err_0.kind->AuthenticationFailure_0@ == "Failed to get Spotify OAuth token"@,
{
    match token {
        Some(token_info) => Ok(token_info),
        None => Err(
            Error::new(
                ErrorKind::AuthenticationFailure("Failed to get Spotify OAuth token".to_owned()),
            ),
        ),
    }
}

/// The notice to show before a pause of `seconds`.
pub fn backoff_notice(seconds: u64) -> (s: String)
    ensures
        s@ == "spotify rate limit hit. sleeping for "@ + decimal(seconds as nat) + " seconds"@,
{
    let mut s = "spotify rate limit hit. sleeping for ".to_owned();
    push_decimal(&mut s, seconds);
    s.append(" seconds");
    s
}

/// The notice to show when a run ends on an unclassified failure.
pub fn abort_notice(status_code: u16) -> (s: String)
    ensures
        s@ == "api called to spotify failed with status code "@ + decimal(status_code as nat),
{
    let mut s = "api called to spotify failed with status code ".to_owned();
    push_decimal(&mut s, status_code as u64);
    s
}

/// An authenticated session with the remote service.
#[derive(Clone, Debug, PartialEq, Eq)]
pub struct SpotifyWrapper {
    pub credential: Credential,
}

impl SpotifyWrapper {
    /// A session from the end of the authorization flow.
    pub fn new(token: Option<Credential>) -> (r: Result<SpotifyWrapper, Error>)
        ensures
            token is Some ==> r == Ok::<SpotifyWrapper, Error>(
                SpotifyWrapper { credential: token->0 },
            ),
            token is None ==> r is Err && r->Err_0.kind is AuthenticationFailure
                && r->Err_0.kind->AuthenticationFailure_0@ == "Failed to get Spotify OAuth token"@,
    {
        match authenticate(token) {
            Ok(credential) => Ok(SpotifyWrapper { credential }),
            Err(e) => Err(e),
        }
    }

    /// The query that finds a track by its name and, where they are given,
    /// its artist and its album.
    pub fn generate_search_query(name: &str, artist: Option<&str>, album: Option<&str>) -> (res:
        String)
        ensures
            res@ == search_query(name@, text_of(artist), text_of(album)),
    {
        let mut res = name.to_owned();
        match artist {
            Some(t) => {
                res.append(" artist:");
                res.append(t);
            },
            None => {},
        }
        match album {
            Some(t) => {
                res.append(" album:");
                res.append(t);
            },
            None => {},
        }
        res
    }

    /// Decides what to do about the answer to a remote call.
    pub fn rate_limit_call<R>(&self, response: Result<R, ApiFailure>) -> (step: CallStep<R>)
        ensures
            step == call_step(response),
    {
        match response {
            Ok(v) => CallStep::Return(v),
            Err(ApiFailure::Unauthorized) => CallStep::Fail(Error::new(ErrorKind::Unauthorized)),
            Err(ApiFailure::RateLimited(d)) => {
                let seconds: u64 = match d {
                    Some(duration) => duration as u64,
                    None => DEFAULT_BACKOFF_SECONDS,
                };
                CallStep::Backoff { seconds }
            },
            Err(ApiFailure::Other(status_code)) => CallStep::Abort { status_code },
        }
    }

    /// The search that looks for the one track with this name, artist and
    /// album: a single result is asked for, from the start of the results.
    pub fn search_request(name: &str, artist: Option<&str>, album: Option<&str>) -> (request:
        SearchRequest)
        ensures
            request.query@ == search_query(name@, text_of(artist), text_of(album)),
            request.limit == 1,
            request.offset == 0,
    {
        SearchRequest {
            query: SpotifyWrapper::generate_search_query(name, artist, album),
            limit: 1,
            offset: 0,
        }
    }

    /// Reads the answer to a search for one track: the track where the
    /// catalog holds exactly one, an error where it holds none or several, and
    /// the error of the call where the call failed.
    pub fn exact_track_match(&self, found: Result<Page<RemoteTrack>, Error>) -> (r: Result<
        RemoteTrack,
        Error,
    >)
        requires
            found is Ok ==> found->Ok_0.carries_single_result(),
        ensures
            found is Ok ==> r == found->Ok_0.outcome().as_result(),
            found is Err ==> r == Err::<RemoteTrack, Error>(found->Err_0),
    {
        match found {
            Ok(page) => page.classify().into_result(),
            Err(e) => Err(e),
        }
    }

    /// The request that creates the playlist `name` for the user of this
    /// session, whose id was looked up before: a private playlist without a
    /// description. Where the lookup failed, its error.
    pub fn create_playlist(&self, user_id: Result<String, Error>, name: &str) -> (r: Result<
        CreatePlaylistRequest,
        Error,
    >)
        ensures
            user_id is Err ==> r == Err::<CreatePlaylistRequest, Error>(user_id->Err_0),
            user_id is Ok ==> r is Ok && r->Ok_0.user_id == user_id->Ok_0 && r->Ok_0.name@ == name@
                && !r->Ok_0.public && r->Ok_0.description is None,
    {
        match user_id {
            Ok(id) => Ok(
                CreatePlaylistRequest {
                    user_id: id,
                    name: name.to_owned(),
                    public: false,
                    description: None,
                },
            ),
            Err(e) => Err(e),
        }
    }

    /// Begins the listing of the user's playlists: twenty to a page, from
    /// the start.
    pub fn list_playlists(&self) -> (pager: Pager<RemotePlaylist>)
        ensures
            pager.items@ == Seq::<RemotePlaylist>::empty(),
            pager.limit == PLAYLIST_PAGE_LIMIT,
            pager.offset == 0,
    {
        Pager::new(PLAYLIST_PAGE_LIMIT)
    }
}

impl DisplayTrack for RemoteTrack {
    open spec fn name_text(&self) -> Seq<char> {
        self.name@
    }

    open spec fn artist_text(&self) -> Seq<char> {
        joined_artists(self.artists@)
    }

    open spec fn album_text(&self) -> Option<Seq<char>> {
        Some(self.album@)
    }

    open spec fn uri_text(&self) -> Seq<char> {
        self.uri@
    }

    fn name(&self) -> (s: &str) {
        self.name.as_str()
    }

    fn artist(&self) -> (s: String) {
        let mut result = String::new();
        let mut i: usize = 0;
        while i < self.artists.len()
            invariant
                i <= self.artists@.len(),
                result@ == joined_artists(self.artists@.subrange(0, i as int)),
            decreases self.artists@.len() - i,
        {
            result.append(self.artists[i].as_str());
            result.append("; ");
            proof {
                let upto = self.artists@.subrange(0, i + 1);
                assert(upto.drop_last() =~= self.artists@.subrange(0, i as int));
                assert(upto.last() == self.artists@[i as int]);
            }
            i += 1;
        }
        assert(self.artists@.subrange(0, i as int) =~= self.artists@);
        result
    }

    fn album(&self) -> (s: Option<&String>) {
        Some(&self.album)
    }

    fn spotify_uri(&self) -> (s: &str) {
        self.uri.as_str()
    }
}

} // verus!
