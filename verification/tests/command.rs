use ispot::command::{
    match_playlist, match_playlist_at, MatchOptions, MatchStep, ReconciliationResult, WorkflowError,
};
use ispot::error::{Error, ErrorKind};
use ispot::itunes::{Playlist, Track};
use ispot::spotify::{RemotePlaylist, RemoteTrack};

fn local(name: &str, artist: &str, album: Option<&str>) -> Track {
    Track {
        name: name.to_string(),
        artist: artist.to_string(),
        album: album.map(|a| a.to_string()),
        year: None,
        genre: None,
    }
}

fn remote(name: &str) -> RemoteTrack {
    RemoteTrack {
        name: name.to_string(),
        artists: vec!["Queen".to_string()],
        album: "Album".to_string(),
        uri: format!("spotify:track:{}", name),
    }
}

fn three_tracks() -> Playlist {
    let mut playlist = Playlist::new(1, "folder".to_string());
    playlist.insert("1".to_string(), local("one", "Queen", Some("Album")));
    playlist.insert("2".to_string(), local("two", "Queen", None));
    playlist.insert("3".to_string(), local("three", "Queen", Some("Album")));
    playlist
}

fn options(create_remote: bool, remote_name: Option<&str>, report_mismatches: bool) -> MatchOptions {
    MatchOptions { create_remote, remote_name: remote_name.map(|n| n.to_string()), report_mismatches }
}

fn no_results() -> Result<RemoteTrack, Error> {
    Err(Error::new(ErrorKind::NoResults))
}

/// Runs the searches of a run with the given outcomes, one for each track.
fn search_all(mut step: MatchStep, outcomes: Vec<Result<RemoteTrack, Error>>) -> MatchStep {
    for outcome in outcomes {
        step = match step {
            MatchStep::Search(run) => run.resume(outcome),
            _ => panic!("the run is not searching"),
        };
    }
    step
}

fn outcome_of(step: MatchStep) -> Result<ReconciliationResult, WorkflowError> {
    match step {
        MatchStep::Done(outcome) => outcome,
        _ => panic!("the run is not done"),
    }
}

#[test]
fn empty_playlist_has_no_matches() {
    let playlist = Playlist::new(1, "folder".to_string());
    let step = match_playlist_at(Ok(playlist), options(true, None, true), "2024-01-02 03:04:05");
    assert_eq!(
        outcome_of(step),
        Err(WorkflowError::NoMatches { total_count: 0, mismatched_count: 0 })
    );
}

#[test]
fn empty_playlist_has_no_matches_whatever_is_asked() {
    for create_remote in [false, true] {
        for report_mismatches in [false, true] {
            let playlist = Playlist::new(1, "folder".to_string());
            let step = match_playlist_at(
                Ok(playlist),
                options(create_remote, Some("name"), report_mismatches),
                "",
            );
            assert_eq!(
                outcome_of(step),
                Err(WorkflowError::NoMatches { total_count: 0, mismatched_count: 0 })
            );
        }
    }
}

#[test]
fn playlist_that_was_not_loaded_ends_the_run() {
    let failed = Err(Error::new(ErrorKind::FileNotFound("Can't find playlist file".to_string())));
    let step = match_playlist_at(failed, options(true, None, false), "now");
    assert_eq!(
        outcome_of(step),
        Err(WorkflowError::Load(Error::new(ErrorKind::FileNotFound(
            "Can't find playlist file".to_string()
        ))))
    );
}

#[test]
fn tracks_are_searched_for_in_playlist_order() {
    let mut step = match_playlist_at(Ok(three_tracks()), options(false, None, true), "now");
    let mut queries: Vec<String> = Vec::new();
    let mut names: Vec<String> = Vec::new();
    while let MatchStep::Search(run) = step {
        let request = run.request();
        assert_eq!(request.limit, 1);
        assert_eq!(request.offset, 0);
        queries.push(request.query);
        names.push(run.track().name.clone());
        step = run.resume(Ok(remote("found")));
    }
    assert_eq!(
        queries,
        vec!["one artist:Queen album:Album", "two artist:Queen", "three artist:Queen album:Album"]
    );
    assert_eq!(names, vec!["one", "two", "three"]);
}

#[test]
fn two_matches_and_one_mismatch_are_counted() {
    let step = match_playlist_at(Ok(three_tracks()), options(false, None, true), "now");
    let step = search_all(step, vec![Ok(remote("one")), no_results(), Ok(remote("three"))]);
    let result = outcome_of(step).unwrap();
    assert_eq!(result.matched_count, 2);
    assert_eq!(result.mismatched_count, 1);
    assert_eq!(result.total_count, 3);
    assert_eq!(result.matched, vec![remote("one"), remote("three")]);
}

#[test]
fn mismatches_are_dropped_where_they_are_not_reported() {
    let step = match_playlist_at(Ok(three_tracks()), options(false, None, false), "now");
    let step = search_all(
        step,
        vec![Ok(remote("one")), Err(Error::new(ErrorKind::MultipleResults(4))), no_results()],
    );
    let result = outcome_of(step).unwrap();
    assert_eq!(result.matched_count, 1);
    assert_eq!(result.mismatched_count, 0);
    assert_eq!(result.total_count, 3);
    assert_eq!(result.matched, vec![remote("one")]);
}

#[test]
fn ambiguous_search_is_a_mismatch() {
    let step = match_playlist_at(Ok(three_tracks()), options(false, None, true), "now");
    let step = search_all(
        step,
        vec![
            Err(Error::new(ErrorKind::MultipleResults(2))),
            Ok(remote("two")),
            Err(Error::new(ErrorKind::MultipleResults(40))),
        ],
    );
    let result = outcome_of(step).unwrap();
    assert_eq!(result.matched_count, 1);
    assert_eq!(result.mismatched_count, 2);
    assert_eq!(result.total_count, 3);
}

#[test]
fn run_without_creation_creates_nothing() {
    let mut step = match_playlist_at(Ok(three_tracks()), options(false, None, true), "now");
    let mut outcomes = vec![Ok(remote("three")), no_results(), Ok(remote("one"))];
    let mut steps: usize = 0;
    loop {
        step = match step {
            MatchStep::Search(run) => run.resume(outcomes.pop().unwrap()),
            MatchStep::Create(_) => panic!("a playlist would be created"),
            MatchStep::Append(_) => panic!("a track would be appended"),
            MatchStep::Done(outcome) => {
                let result = outcome.unwrap();
                assert_eq!(result.matched_count, 2);
                assert_eq!(result.mismatched_count, 1);
                assert_eq!(result.total_count, 3);
                break;
            }
        };
        steps += 1;
    }
    assert_eq!(steps, 3);
}

#[test]
fn creation_leaves_the_counts_as_the_matching_gave_them() {
    let searches = vec![Ok(remote("one")), no_results(), Ok(remote("three"))];
    let plain = match_playlist_at(Ok(three_tracks()), options(false, None, true), "now");
    let alone = outcome_of(search_all(plain, searches.clone())).unwrap();

    let creating = match_playlist_at(Ok(three_tracks()), options(true, None, true), "now");
    let step = search_all(creating, searches);
    let step = match step {
        MatchStep::Create(run) => run.resume(Ok(RemotePlaylist {
            id: "first-list".to_string(),
            name: "ispot - now".to_string(),
            uri: "spotify:playlist:first-list".to_string(),
        })),
        _ => panic!("the playlist is not created"),
    };
    let step = match step {
        MatchStep::Append(run) => run.resume(Ok(())),
        _ => panic!("the first track is not appended"),
    };
    let step = match step {
        MatchStep::Append(run) => run.resume(Ok(())),
        _ => panic!("the second track is not appended"),
    };
    assert_eq!(outcome_of(step), Ok(alone));
}

#[test]
fn matched_tracks_are_appended_one_by_one_in_order() {
    let step = match_playlist_at(Ok(three_tracks()), options(true, Some("Mine"), false), "now");
    let step = search_all(step, vec![Ok(remote("one")), Ok(remote("two")), Ok(remote("three"))]);
    let run = match step {
        MatchStep::Create(run) => run,
        _ => panic!("the playlist is not created"),
    };
    assert_eq!(run.name(), "Mine");
    let mut step = run.resume(Ok(RemotePlaylist {
        id: "mine-list".to_string(),
        name: "Mine".to_string(),
        uri: "spotify:playlist:mine-list".to_string(),
    }));
    let mut appended: Vec<String> = Vec::new();
    while let MatchStep::Append(run) = step {
        assert_eq!(run.playlist_id(), "mine-list");
        appended.push(run.track_uri().to_string());
        step = run.resume(Ok(()));
    }
    assert_eq!(appended, vec!["spotify:track:one", "spotify:track:two", "spotify:track:three"]);
    let result = outcome_of(step).unwrap();
    assert_eq!(result.matched_count, 3);
    assert_eq!(result.mismatched_count, 0);
    assert_eq!(result.total_count, 3);
}

#[test]
fn playlist_without_a_name_is_named_after_the_time() {
    let step = match_playlist_at(Ok(three_tracks()), options(true, None, false), "2024-01-02 03:04:05");
    let step = search_all(step, vec![Ok(remote("one")), no_results(), no_results()]);
    match step {
        MatchStep::Create(run) => assert_eq!(run.name(), "ispot - 2024-01-02 03:04:05"),
        _ => panic!("the playlist is not created"),
    }
}

#[test]
fn nothing_matched_is_no_matches_with_the_counts() {
    let step = match_playlist_at(Ok(three_tracks()), options(true, None, true), "now");
    let step = search_all(
        step,
        vec![no_results(), Err(Error::new(ErrorKind::MultipleResults(3))), no_results()],
    );
    assert_eq!(
        outcome_of(step),
        Err(WorkflowError::NoMatches { total_count: 3, mismatched_count: 3 })
    );
    let step = match_playlist_at(Ok(three_tracks()), options(false, None, false), "now");
    let step = search_all(step, vec![no_results(), no_results(), no_results()]);
    assert_eq!(
        outcome_of(step),
        Err(WorkflowError::NoMatches { total_count: 3, mismatched_count: 0 })
    );
}

#[test]
fn failed_search_ends_the_run_at_once() {
    let step = match_playlist_at(Ok(three_tracks()), options(true, None, true), "now");
    let step = search_all(step, vec![Ok(remote("one")), Err(Error::new(ErrorKind::Unauthorized))]);
    assert_eq!(outcome_of(step), Err(WorkflowError::Fatal(Error::new(ErrorKind::Unauthorized))));
}

#[test]
fn failed_creation_ends_the_run() {
    let step = match_playlist_at(Ok(three_tracks()), options(true, None, true), "now");
    let step = search_all(step, vec![Ok(remote("one")), no_results(), no_results()]);
    let step = match step {
        MatchStep::Create(run) => run.resume(Err(Error::new(ErrorKind::Unauthorized))),
        _ => panic!("the playlist is not created"),
    };
    assert_eq!(outcome_of(step), Err(WorkflowError::Create(Error::new(ErrorKind::Unauthorized))));
}

#[test]
fn failed_append_ends_the_run_and_keeps_the_progress() {
    let step = match_playlist_at(Ok(three_tracks()), options(true, None, true), "now");
    let step = search_all(step, vec![Ok(remote("one")), Ok(remote("two")), Ok(remote("three"))]);
    let step = match step {
        MatchStep::Create(run) => run.resume(Ok(RemotePlaylist {
            id: "p".to_string(),
            name: "n".to_string(),
            uri: "u".to_string(),
        })),
        _ => panic!("the playlist is not created"),
    };
    let step = match step {
        MatchStep::Append(run) => run.resume(Ok(())),
        _ => panic!("the first track is not appended"),
    };
    let step = match step {
        MatchStep::Append(run) => run.resume(Err(Error::new(ErrorKind::Unauthorized))),
        _ => panic!("the second track is not appended"),
    };
    assert_eq!(
        outcome_of(step),
        Err(WorkflowError::Append { appended: 1, error: Error::new(ErrorKind::Unauthorized) })
    );
}

#[test]
fn rerun_with_the_same_verdicts_counts_the_same() {
    let first = match_playlist_at(Ok(three_tracks()), options(false, None, true), "now");
    let first = outcome_of(search_all(
        first,
        vec![Ok(remote("one")), no_results(), Ok(remote("three"))],
    ))
    .unwrap();
    let second = match_playlist_at(Ok(three_tracks()), options(false, None, true), "later");
    let second = outcome_of(search_all(
        second,
        vec![
            Ok(remote("another one")),
            Err(Error::new(ErrorKind::MultipleResults(7))),
            Ok(remote("another three")),
        ],
    ))
    .unwrap();
    assert_eq!(first.matched_count, second.matched_count);
    assert_eq!(first.mismatched_count, second.mismatched_count);
    assert_eq!(first.total_count, second.total_count);
    let again = match_playlist_at(Ok(three_tracks()), options(false, None, true), "now");
    let again = outcome_of(search_all(
        again,
        vec![Ok(remote("one")), no_results(), Ok(remote("three"))],
    ))
    .unwrap();
    assert_eq!(first, again);
}

#[test]
fn run_that_begins_now_searches_for_the_first_track() {
    let step = match_playlist(Ok(three_tracks()), options(true, None, false));
    let step = match step {
        MatchStep::Search(run) => {
            assert_eq!(run.request().query, "one artist:Queen album:Album");
            run.resume(Ok(remote("one")))
        }
        _ => panic!("the run is not searching"),
    };
    let step = search_all(step, vec![no_results(), no_results()]);
    match step {
        MatchStep::Create(run) => {
            assert!(run.name().starts_with("ispot - "));
            assert_eq!(run.name().len(), "ispot - 2024-01-02 03:04:05".len());
        }
        _ => panic!("the playlist is not created"),
    }
}

#[test]
fn summary_names_the_matched_and_the_total() {
    let step = match_playlist_at(Ok(three_tracks()), options(false, None, true), "now");
    let step = search_all(step, vec![Ok(remote("one")), no_results(), Ok(remote("three"))]);
    let result = outcome_of(step).unwrap();
    assert_eq!(result.summary(), vec!["matched tracks: 2", "total tracks: 3"]);
}
