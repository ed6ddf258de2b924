use nefoxide::error::{NikonError, SdkOperation};
use nefoxide::params::RawDevelopment;
use nefoxide::protocol::{
    to_c_string, to_fixed_field, ColorProcess, DevelopColorMode, NikonLibrary, ParameterSet,
    RenderingIntent, SdkCall, SdkReply, SdkStep, SessionStep,
};

const OK: u64 = 0;

fn ok_reply() -> SdkReply {
    SdkReply { code: OK, value: 0 }
}

fn opened_library() -> NikonLibrary {
    let replies = vec![ok_reply(), ok_reply()];
    match NikonLibrary::open(&replies, OK) {
        SdkStep::Done(Ok(library)) => library,
        _ => panic!("library did not open"),
    }
}

#[test]
fn library_opens_then_sets_colour_mode() {
    match NikonLibrary::open(&vec![], OK) {
        SdkStep::Call(SdkCall::OpenLibrary { version, vm_memory_size, vm_file_info }) => {
            assert_eq!(version, 0x01000000);
            assert_eq!(vm_memory_size, 1024);
            assert_eq!(vm_file_info.len(), 1024);
            let path = b"/tmp/nefoxide-nikon-sdk-vm.tmp\0";
            assert_eq!(&vm_file_info[..path.len()], &path[..]);
            assert!(vm_file_info[path.len()..].iter().all(|b| *b == 0));
        }
        _ => panic!("expected the OpenLibrary call"),
    }
    match NikonLibrary::open(&vec![ok_reply()], OK) {
        SdkStep::Call(call) => assert_eq!(
            call,
            SdkCall::SetDevelopColorMode { mode: DevelopColorMode::AppliedInCamera }
        ),
        _ => panic!("expected the SetDevelopColorMode call"),
    }
    let library = opened_library();
    assert_eq!(library.success_code(), OK);
    assert_eq!(library.close_call(), SdkCall::CloseLibrary);
}

#[test]
fn library_open_failure_names_the_call() {
    match NikonLibrary::open(&vec![SdkReply { code: 4, value: 0 }], OK) {
        SdkStep::Done(Err(e)) => {
            assert_eq!(e, NikonError::Sdk { operation: SdkOperation::OpenLibrary, code: 4 });
            assert_eq!(e.message(), "Nikon SDK OpenLibrary failed with code 0x0004");
        }
        _ => panic!("expected a failure"),
    }
    match NikonLibrary::open(&vec![ok_reply(), SdkReply { code: 0x1f, value: 0 }], OK) {
        SdkStep::Done(Err(e)) => assert_eq!(
            e,
            NikonError::Sdk { operation: SdkOperation::SetDevelopColorMode, code: 0x1f }
        ),
        _ => panic!("expected a failure"),
    }
}

#[test]
fn session_calls_follow_the_validated_order() {
    let library = opened_library();
    let path = b"/photos/a.nef";
    let profile = b"/repo/lib/NikonSDK/Profiles/NKsRGB.icm";
    let mut replies: Vec<SdkReply> = Vec::new();
    let mut operations = Vec::new();
    loop {
        match library.open_session(path, profile, &replies) {
            SessionStep::Call(call) => {
                match &call {
                    SdkCall::OpenSession { file_name } => {
                        assert_eq!(file_name.as_slice(), b"/photos/a.nef\0");
                        operations.push("OpenSession");
                    }
                    SdkCall::ApplyRawParameterSet { session_id, parameter_set } => {
                        assert_eq!(*session_id, 42);
                        assert_eq!(*parameter_set, ParameterSet::AsShot);
                        operations.push("RawParameterSet");
                    }
                    SdkCall::SetColorProcess { session_id, process } => {
                        assert_eq!(*session_id, 42);
                        assert_eq!(*process, ColorProcess::AppliedInCamera);
                        operations.push("ColorProcess");
                    }
                    SdkCall::SetOutputProfile { session_id, rendering_intent, profile: field } => {
                        assert_eq!(*session_id, 42);
                        assert_eq!(*rendering_intent, RenderingIntent::Perceptual);
                        assert_eq!(field.len(), 1024);
                        assert_eq!(&field[..profile.len()], &profile[..]);
                        assert!(field[profile.len()..].iter().all(|b| *b == 0));
                        operations.push("OutputProfile");
                    }
                    other => panic!("unexpected call {:?}", other),
                }
                replies.push(SdkReply { code: OK, value: if replies.is_empty() { 42 } else { 0 } });
            }
            SessionStep::Opened(session) => {
                assert_eq!(session.session_id(), 42);
                assert_eq!(session.close_call(), Some(SdkCall::CloseSession { session_id: 42 }));
                break;
            }
            SessionStep::Failed { error, .. } => panic!("unexpected failure {:?}", error),
        }
    }
    assert_eq!(operations, vec!["OpenSession", "RawParameterSet", "ColorProcess", "OutputProfile"]);
}

#[test]
fn session_path_with_nul_is_refused_before_any_call() {
    let library = opened_library();
    match library.open_session(b"a\0b.nef", b"/p.icm", &vec![]) {
        SessionStep::Failed { error, opened } => {
            assert_eq!(error, NikonError::PathEncoding);
            assert!(opened.is_none());
            assert_eq!(error.message(), "path cannot be passed to Nikon SDK as UTF-8 C string");
        }
        _ => panic!("expected a path-encoding failure"),
    }
}

#[test]
fn profile_path_with_nul_closes_the_opened_session() {
    let library = opened_library();
    let replies = vec![SdkReply { code: OK, value: 7 }, ok_reply(), ok_reply()];
    match library.open_session(b"a.nef", b"/p\0.icm", &replies) {
        SessionStep::Failed { error, opened } => {
            assert_eq!(error, NikonError::PathEncoding);
            let session = opened.expect("the session was opened");
            assert_eq!(session.session_id(), 7);
            assert_eq!(session.close_call(), Some(SdkCall::CloseSession { session_id: 7 }));
        }
        _ => panic!("expected a path-encoding failure"),
    }
}

#[test]
fn failing_session_call_reports_it_and_hands_back_the_session() {
    let library = opened_library();
    match library.open_session(b"a.nef", b"/p.icm", &vec![SdkReply { code: 9, value: 0 }]) {
        SessionStep::Failed { error, opened } => {
            assert_eq!(error, NikonError::Sdk { operation: SdkOperation::OpenSession, code: 9 });
            assert!(opened.is_none());
        }
        _ => panic!("expected a failure"),
    }
    let replies = vec![SdkReply { code: OK, value: 5 }, ok_reply(), SdkReply { code: 0x104, value: 0 }];
    match library.open_session(b"a.nef", b"/p.icm", &replies) {
        SessionStep::Failed { error, opened } => {
            assert_eq!(error, NikonError::Sdk { operation: SdkOperation::SetColorProcess, code: 0x104 });
            assert_eq!(error.message(), "Nikon SDK SetColorProcess failed with code 0x0104");
            assert_eq!(opened.expect("opened").session_id(), 5);
        }
        _ => panic!("expected a failure"),
    }
}

#[test]
fn session_id_zero_is_not_closed() {
    let library = opened_library();
    let replies = vec![ok_reply(), ok_reply(), ok_reply(), ok_reply()];
    match library.open_session(b"a.nef", b"/p.icm", &replies) {
        SessionStep::Opened(session) => assert_eq!(session.close_call(), None),
        _ => panic!("expected an opened session"),
    }
}

#[test]
fn check_maps_codes_to_errors() {
    let library = opened_library();
    assert_eq!(library.check(SdkOperation::GetImageInfo, OK), Ok(()));
    let e = library
        .check(SdkOperation::GetRawDevelopmentParam(RawDevelopment::WBAdjustment), 0xabcde)
        .unwrap_err();
    assert_eq!(e.message(), "Nikon SDK GetRawDevelopmentParam(WBAdjustment) failed with code 0xabcde");
}

#[test]
fn c_string_and_fixed_field() {
    assert_eq!(to_c_string(b"abc"), Ok(b"abc\0".to_vec()));
    assert_eq!(to_c_string(b""), Ok(vec![0u8]));
    assert_eq!(to_c_string(b"a\0"), Err(NikonError::PathEncoding));
    assert_eq!(to_fixed_field(b"ab", 4), vec![b'a', b'b', 0, 0]);
    assert_eq!(to_fixed_field(b"abcd", 4), b"abcd".to_vec());
}
