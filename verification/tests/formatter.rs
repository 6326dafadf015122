use now_playing_to_file::error::{ErrorKind, NowPlayingError};
use now_playing_to_file::formatter::Formatter;
use now_playing_to_file::handle::HandleKind;
use now_playing_to_file::protocol::{
    is_answer, EvaluationContext, Iteration, Reply, ReplyKind, Request,
};
use now_playing_to_file::settings::TextSetting;

fn buffer_with(text: &[u8]) -> Vec<u8> {
    let mut buffer = vec![0u8; 256];
    buffer[..text.len()].copy_from_slice(text);
    buffer
}

/// Feeds the replies to a fresh render and returns every request it made.
fn requests_for(replies: Vec<Reply>) -> Vec<Request> {
    let (mut session, first) = Formatter::start(true);
    let mut requests = vec![first];
    for reply in replies {
        assert!(is_answer(requests.last().unwrap(), &reply));
        assert!(session.expects(reply.kind()));
        let (next, request) = session.step(reply).unwrap();
        session = next;
        requests.push(request);
    }
    requests
}

fn count_acquisitions(requests: &[Request], replies: &[Reply], kind: HandleKind) -> usize {
    let mut count = 0;
    for (request, reply) in requests.iter().zip(replies.iter()) {
        let asked = match request {
            Request::AcquireTrack => Some(HandleKind::PlayingTrack),
            Request::AcquirePlaylist => Some(HandleKind::PlayingPlaylist),
            Request::Compile(_) => Some(HandleKind::CompiledScript),
            _ => None,
        };
        if asked == Some(kind) && matches!(reply, Reply::Handle(raw) if *raw != 0) {
            count += 1;
        }
    }
    count
}

fn count_releases(requests: &[Request], kind: HandleKind) -> usize {
    requests.iter().filter(|request| matches!(request, Request::Release { kind: k, .. } if *k == kind)).count()
}

fn all_kinds() -> [HandleKind; 3] {
    [HandleKind::PlayingTrack, HandleKind::PlayingPlaylist, HandleKind::CompiledScript]
}

#[test]
fn render_without_api_fails_at_once() {
    let (session, request) = Formatter::start(false);
    assert_eq!(request, Request::Rendered(Err(NowPlayingError::api_unavailable())));
    assert!(!session.expects(ReplyKind::Handle));
    assert!(!session.expects(ReplyKind::Buffer));
    assert!(!session.expects(ReplyKind::Released));
    assert!(!session.expects(ReplyKind::Written));
}

#[test]
fn render_begins_with_the_playing_track() {
    let (session, request) = Formatter::start(true);
    assert_eq!(request, Request::AcquireTrack);
    assert!(session.expects(ReplyKind::Handle));
    assert!(!session.expects(ReplyKind::Buffer));
}

#[test]
fn render_without_track_gives_the_sentinel() {
    let requests = requests_for(vec![Reply::Handle(0)]);
    assert_eq!(
        requests,
        vec![Request::AcquireTrack, Request::Rendered(Ok(String::from("no song playing")))]
    );
}

#[test]
fn render_of_a_track_with_playlist() {
    let replies = vec![
        Reply::Handle(0x10),
        Reply::Handle(0x20),
        Reply::Buffer(buffer_with(b"%title%")),
        Reply::Handle(0x30),
        Reply::Buffer(buffer_with(b"Test Song")),
        Reply::Released,
        Reply::Released,
        Reply::Released,
    ];
    let requests = requests_for(replies);
    assert_eq!(
        requests,
        vec![
            Request::AcquireTrack,
            Request::AcquirePlaylist,
            Request::ReadText { setting: TextSetting::Format, capacity: 256 },
            Request::Compile(b"%title%".to_vec()),
            Request::Evaluate {
                context: EvaluationContext {
                    track: 0x10,
                    playlist: 0x20,
                    flags: 0,
                    index: 0,
                    id: 0,
                    iteration: Iteration::Main,
                    update: 0,
                    dimmed: 0,
                },
                script: 0x30,
                capacity: 256,
            },
            Request::Release { kind: HandleKind::CompiledScript, raw: 0x30 },
            Request::Release { kind: HandleKind::PlayingPlaylist, raw: 0x20 },
            Request::Release { kind: HandleKind::PlayingTrack, raw: 0x10 },
            Request::Rendered(Ok(String::from("Test Song"))),
        ]
    );
}

#[test]
fn render_passes_an_absent_playlist_on() {
    let replies = vec![
        Reply::Handle(0x10),
        Reply::Handle(0),
        Reply::Buffer(buffer_with(b"%artist% - %title%")),
        Reply::Handle(0x30),
        Reply::Buffer(buffer_with(b"Someone - Something")),
        Reply::Released,
        Reply::Released,
    ];
    let requests = requests_for(replies);
    assert_eq!(requests.len(), 8);
    assert_eq!(requests[3], Request::Compile(b"%artist% - %title%".to_vec()));
    assert_eq!(
        requests[4],
        Request::Evaluate {
            context: EvaluationContext::playing(0x10, 0),
            script: 0x30,
            capacity: 256,
        }
    );
    assert_eq!(requests[5], Request::Release { kind: HandleKind::CompiledScript, raw: 0x30 });
    assert_eq!(requests[6], Request::Release { kind: HandleKind::PlayingTrack, raw: 0x10 });
    assert_eq!(requests[7], Request::Rendered(Ok(String::from("Someone - Something"))));
}

#[test]
fn render_of_an_expression_that_does_not_compile_is_empty() {
    let replies = vec![
        Reply::Handle(0x10),
        Reply::Handle(0x20),
        Reply::Buffer(buffer_with(b"$if(")),
        Reply::Handle(0),
        Reply::Released,
        Reply::Released,
    ];
    let requests = requests_for(replies);
    assert_eq!(
        requests[4..],
        [
            Request::Release { kind: HandleKind::PlayingPlaylist, raw: 0x20 },
            Request::Release { kind: HandleKind::PlayingTrack, raw: 0x10 },
            Request::Rendered(Ok(String::new())),
        ]
    );
}

#[test]
fn render_of_an_empty_expression_is_empty() {
    let replies = vec![
        Reply::Handle(0x10),
        Reply::Handle(0),
        Reply::Buffer(buffer_with(b"")),
        Reply::Handle(0),
        Reply::Released,
    ];
    let requests = requests_for(replies);
    assert_eq!(requests[3], Request::Compile(Vec::new()));
    assert_eq!(requests[4], Request::Release { kind: HandleKind::PlayingTrack, raw: 0x10 });
    assert_eq!(requests[5], Request::Rendered(Ok(String::new())));
}

#[test]
fn render_cuts_the_expression_to_the_capacity() {
    let replies = vec![
        Reply::Handle(1),
        Reply::Handle(2),
        Reply::Buffer(vec![b'a'; 400]),
    ];
    let requests = requests_for(replies);
    assert_eq!(requests[3], Request::Compile(vec![b'a'; 255]));
}

#[test]
fn render_fails_on_output_that_is_not_text_and_still_releases() {
    let replies = vec![
        Reply::Handle(0x10),
        Reply::Handle(0x20),
        Reply::Buffer(buffer_with(b"%title%")),
        Reply::Handle(0x30),
        Reply::Buffer(buffer_with(b"\xc0\x80")),
        Reply::Released,
        Reply::Released,
        Reply::Released,
    ];
    let requests = requests_for(replies);
    assert_eq!(
        requests[5..],
        [
            Request::Release { kind: HandleKind::CompiledScript, raw: 0x30 },
            Request::Release { kind: HandleKind::PlayingPlaylist, raw: 0x20 },
            Request::Release { kind: HandleKind::PlayingTrack, raw: 0x10 },
            Request::Rendered(Err(NowPlayingError {
                kind: ErrorKind::Encoding,
                message: String::from("invalid utf-8 sequence of 1 bytes from index 0"),
            })),
        ]
    );
}

#[test]
fn render_of_an_empty_evaluation_is_empty() {
    let replies = vec![
        Reply::Handle(5),
        Reply::Handle(6),
        Reply::Buffer(buffer_with(b"%comment%")),
        Reply::Handle(7),
        Reply::Buffer(buffer_with(b"")),
        Reply::Released,
        Reply::Released,
        Reply::Released,
    ];
    let requests = requests_for(replies);
    assert_eq!(requests[8], Request::Rendered(Ok(String::new())));
}

#[test]
fn render_releases_each_handle_once_on_every_path() {
    let paths: Vec<Vec<Reply>> = vec![
        vec![Reply::Handle(0)],
        vec![
            Reply::Handle(1),
            Reply::Handle(0),
            Reply::Buffer(buffer_with(b"x")),
            Reply::Handle(0),
            Reply::Released,
        ],
        vec![
            Reply::Handle(1),
            Reply::Handle(2),
            Reply::Buffer(buffer_with(b"x")),
            Reply::Handle(0),
            Reply::Released,
            Reply::Released,
        ],
        vec![
            Reply::Handle(1),
            Reply::Handle(0),
            Reply::Buffer(buffer_with(b"x")),
            Reply::Handle(3),
            Reply::Buffer(buffer_with(b"y")),
            Reply::Released,
            Reply::Released,
        ],
        vec![
            Reply::Handle(1),
            Reply::Handle(2),
            Reply::Buffer(buffer_with(b"x")),
            Reply::Handle(3),
            Reply::Buffer(buffer_with(b"\xff")),
            Reply::Released,
            Reply::Released,
            Reply::Released,
        ],
    ];
    for replies in paths {
        let copy: Vec<Reply> = replies
            .iter()
            .map(|reply| match reply {
                Reply::Handle(raw) => Reply::Handle(*raw),
                Reply::Buffer(bytes) => Reply::Buffer(bytes.clone()),
                Reply::Released => Reply::Released,
                Reply::Written(outcome) => Reply::Written(outcome.clone()),
            })
            .collect();
        let requests = requests_for(replies);
        assert!(matches!(requests.last(), Some(Request::Rendered(_))));
        assert!(requests.len() <= 9);
        for kind in all_kinds() {
            assert_eq!(
                count_releases(&requests, kind),
                count_acquisitions(&requests, &copy, kind)
            );
        }
    }
}

#[test]
fn render_never_asks_for_a_write() {
    let replies = vec![
        Reply::Handle(1),
        Reply::Handle(2),
        Reply::Buffer(buffer_with(b"%title%")),
        Reply::Handle(3),
        Reply::Buffer(buffer_with(b"Song")),
        Reply::Released,
        Reply::Released,
        Reply::Released,
    ];
    for request in requests_for(replies) {
        assert!(!matches!(request, Request::Write { .. }));
        assert!(!matches!(request, Request::Exported(_)));
        assert!(!matches!(request, Request::ReadText { setting: TextSetting::OutPath, .. }));
    }
}

#[test]
fn requests_want_the_reply_that_answers_them() {
    assert_eq!(Request::AcquireTrack.wants(), Some(ReplyKind::Handle));
    assert_eq!(Request::AcquirePlaylist.wants(), Some(ReplyKind::Handle));
    assert_eq!(Request::Compile(vec![b'a']).wants(), Some(ReplyKind::Handle));
    assert_eq!(
        Request::ReadText { setting: TextSetting::Format, capacity: 256 }.wants(),
        Some(ReplyKind::Buffer)
    );
    assert_eq!(
        Request::Evaluate { context: EvaluationContext::playing(1, 2), script: 3, capacity: 256 }
            .wants(),
        Some(ReplyKind::Buffer)
    );
    assert_eq!(
        Request::Release { kind: HandleKind::PlayingTrack, raw: 1 }.wants(),
        Some(ReplyKind::Released)
    );
    assert_eq!(
        Request::Write { path: String::from("p"), content: String::from("c") }.wants(),
        Some(ReplyKind::Written)
    );
    assert_eq!(Request::Rendered(Ok(String::new())).wants(), None);
    assert_eq!(Request::Exported(Ok(())).wants(), None);
    assert!(is_answer(&Request::AcquireTrack, &Reply::Handle(0)));
    assert!(!is_answer(&Request::AcquireTrack, &Reply::Released));
    assert!(!is_answer(&Request::Exported(Ok(())), &Reply::Released));
    assert_eq!(Reply::Written(Ok(())).kind(), ReplyKind::Written);
    assert_eq!(Reply::Buffer(Vec::new()).kind(), ReplyKind::Buffer);
}

#[test]
fn step_hands_the_render_back_on_a_reply_of_the_wrong_shape() {
    let (session, _) = Formatter::start(true);
    let session = match session.step(Reply::Released) {
        Ok(_) => panic!("a render that waits for the track took an acknowledgement"),
        Err(session) => session,
    };
    let session = match session.step(Reply::Buffer(buffer_with(b"x"))) {
        Ok(_) => panic!("a render that waits for the track took a buffer"),
        Err(session) => session,
    };
    assert!(session.expects(ReplyKind::Handle));
    match session.step(Reply::Handle(9)) {
        Ok((session, request)) => {
            assert_eq!(request, Request::AcquirePlaylist);
            assert!(session.expects(ReplyKind::Handle));
        }
        Err(_) => panic!("a render that waits for the track did not take it"),
    }
}

#[test]
fn step_takes_nothing_once_the_render_is_over() {
    let (session, _) = Formatter::start(true);
    let (session, request) = session.step(Reply::Handle(0)).unwrap();
    assert_eq!(request, Request::Rendered(Ok(String::from("no song playing"))));
    let session = session.step(Reply::Handle(1)).unwrap_err();
    let session = session.step(Reply::Released).unwrap_err();
    let session = session.step(Reply::Buffer(Vec::new())).unwrap_err();
    assert!(session.step(Reply::Written(Ok(()))).is_err());
}

#[test]
fn every_render_releases_what_it_was_handed() {
    for case in 0..16u32 {
        let track = if case & 1 != 0 { 0x11 } else { 0 };
        let playlist = if case & 2 != 0 { 0x22 } else { 0 };
        let script = if case & 4 != 0 { 0x33 } else { 0 };
        let output: &[u8] = if case & 8 != 0 { b"fine" } else { b"\xff" };
        let (mut session, mut request) = Formatter::start(true);
        let mut handed_out: Vec<(HandleKind, usize)> = Vec::new();
        let mut given_back: Vec<(HandleKind, usize)> = Vec::new();
        let mut exchanges = 0;
        let outcome = loop {
            let reply = match &request {
                Request::AcquireTrack => {
                    if track != 0 {
                        handed_out.push((HandleKind::PlayingTrack, track));
                    }
                    Reply::Handle(track)
                }
                Request::AcquirePlaylist => {
                    if playlist != 0 {
                        handed_out.push((HandleKind::PlayingPlaylist, playlist));
                    }
                    Reply::Handle(playlist)
                }
                Request::ReadText { .. } => Reply::Buffer(buffer_with(b"%title%")),
                Request::Compile(_) => {
                    if script != 0 {
                        handed_out.push((HandleKind::CompiledScript, script));
                    }
                    Reply::Handle(script)
                }
                Request::Evaluate { context, script: compiled, .. } => {
                    assert_eq!(context.track, track);
                    assert_eq!(context.playlist, playlist);
                    assert_eq!(*compiled, script);
                    assert!(given_back.is_empty());
                    Reply::Buffer(buffer_with(output))
                }
                Request::Release { kind, raw } => {
                    given_back.push((*kind, *raw));
                    Reply::Released
                }
                Request::Rendered(_) => break request,
                Request::Write { .. } | Request::Exported(_) => unreachable!(),
            };
            let (next, then) = session.step(reply).unwrap();
            session = next;
            request = then;
            exchanges += 1;
            assert!(exchanges <= 8);
        };
        handed_out.reverse();
        assert_eq!(given_back, handed_out);
        let expected = if track == 0 {
            Ok(String::from("no song playing"))
        } else if script == 0 {
            Ok(String::new())
        } else if case & 8 != 0 {
            Ok(String::from("fine"))
        } else {
            Err(NowPlayingError {
                kind: ErrorKind::Encoding,
                message: String::from("invalid utf-8 sequence of 1 bytes from index 0"),
            })
        };
        assert_eq!(outcome, Request::Rendered(expected));
    }
}
