use io_context::IoContext;
use io_context::OsMode;
use std::io::Error;
use std::io::ErrorKind;

#[test]
fn fresh_context_is_nonblocking_without_raw_use() {
    let ctx = IoContext::new();
    assert!(!ctx.is_nonblocking());
    assert_eq!(ctx.mode(), OsMode::Nonblocking);
}

#[test]
fn from_parts_holds_what_it_was_given() {
    let ctx = IoContext::from_parts(true, OsMode::Blocking);
    assert!(ctx.is_nonblocking());
    assert_eq!(ctx.mode(), OsMode::Blocking);
    let ctx = IoContext::from_parts(false, OsMode::Nonblocking);
    assert!(!ctx.is_nonblocking());
    assert_eq!(ctx.mode(), OsMode::Nonblocking);
}

#[test]
fn set_nonblocking_records_the_choice_and_keeps_the_mode() {
    let mut ctx = IoContext::from_parts(false, OsMode::Blocking);
    ctx.set_nonblocking(true);
    assert!(ctx.is_nonblocking());
    assert_eq!(ctx.mode(), OsMode::Blocking);
    ctx.set_nonblocking(false);
    assert!(!ctx.is_nonblocking());
    assert_eq!(ctx.mode(), OsMode::Blocking);
}

#[test]
fn thread_then_thread_then_coroutine() {
    let mut ctx = IoContext::new();

    let mut first: Vec<bool> = Vec::new();
    let r = ctx.check_context(false, |on| {
        first.push(on);
        Ok(())
    });
    assert_eq!(r.unwrap(), false);
    assert_eq!(first, vec![false]);
    assert_eq!(ctx.mode(), OsMode::Blocking);

    let mut second: Vec<bool> = Vec::new();
    let r = ctx.check_context(false, |on| {
        second.push(on);
        Ok(())
    });
    assert_eq!(r.unwrap(), false);
    assert!(second.is_empty());
    assert_eq!(ctx.mode(), OsMode::Blocking);

    let mut third: Vec<bool> = Vec::new();
    let r = ctx.check_context(true, |on| {
        third.push(on);
        Ok(())
    });
    assert_eq!(r.unwrap(), true);
    assert_eq!(third, vec![true]);
    assert_eq!(ctx.mode(), OsMode::Nonblocking);
}

#[test]
fn calls_from_threads_toggle_once() {
    let mut ctx = IoContext::new();
    let mut toggles: Vec<bool> = Vec::new();
    for _ in 0..5 {
        let r = ctx.check_context(false, |on| {
            toggles.push(on);
            Ok(())
        });
        assert_eq!(r.unwrap(), false);
        assert_eq!(ctx.mode(), OsMode::Blocking);
    }
    assert_eq!(toggles, vec![false]);
}

#[test]
fn calls_from_coroutines_on_a_fresh_context_never_toggle() {
    let mut ctx = IoContext::new();
    let mut toggles: Vec<bool> = Vec::new();
    for _ in 0..5 {
        let r = ctx.check_context(true, |on| {
            toggles.push(on);
            Ok(())
        });
        assert_eq!(r.unwrap(), true);
        assert_eq!(ctx.mode(), OsMode::Nonblocking);
    }
    assert!(toggles.is_empty());
}

#[test]
fn calls_from_coroutines_on_a_blocking_descriptor_toggle_once() {
    let mut ctx = IoContext::from_parts(false, OsMode::Blocking);
    let mut toggles: Vec<bool> = Vec::new();
    for _ in 0..4 {
        let r = ctx.check_context(true, |on| {
            toggles.push(on);
            Ok(())
        });
        assert_eq!(r.unwrap(), true);
    }
    assert_eq!(toggles, vec![true]);
    assert_eq!(ctx.mode(), OsMode::Nonblocking);
}

#[test]
fn alternating_contexts_toggle_at_every_call() {
    let mut ctx = IoContext::new();
    let contexts = vec![false, true, false, true, false, true];
    let mut toggles: Vec<bool> = Vec::new();
    for &in_coroutine in contexts.iter() {
        let mut invoked = 0;
        let r = ctx.check_context(in_coroutine, |on| {
            invoked += 1;
            toggles.push(on);
            Ok(())
        });
        assert_eq!(r.unwrap(), in_coroutine);
        assert_eq!(invoked, 1);
        let needed = if in_coroutine { OsMode::Nonblocking } else { OsMode::Blocking };
        assert_eq!(ctx.mode(), needed);
    }
    assert_eq!(toggles, contexts);
}

#[test]
fn alternation_that_starts_in_the_fitting_mode_skips_the_first_toggle() {
    let mut ctx = IoContext::new();
    let contexts = vec![true, false, true, false];
    let mut toggles: Vec<bool> = Vec::new();
    for &in_coroutine in contexts.iter() {
        let r = ctx.check_context(in_coroutine, |on| {
            toggles.push(on);
            Ok(())
        });
        assert_eq!(r.unwrap(), in_coroutine);
    }
    assert_eq!(toggles, vec![false, true, false]);
}

#[test]
fn context_check_ignores_the_raw_request() {
    let mut ctx = IoContext::new();
    ctx.set_nonblocking(true);
    let mut toggles: Vec<bool> = Vec::new();
    let r = ctx.check_context(false, |on| {
        toggles.push(on);
        Ok(())
    });
    assert_eq!(r.unwrap(), false);
    assert_eq!(toggles, vec![false]);
    assert_eq!(ctx.mode(), OsMode::Blocking);
    assert!(ctx.is_nonblocking());
}

#[test]
fn raw_check_without_request_does_nothing() {
    let mut ctx = IoContext::new();
    let mut invoked = false;
    let r = ctx.check_nonblocking(|_| {
        invoked = true;
        Ok(())
    });
    assert_eq!(r.unwrap(), false);
    assert!(!invoked);
    assert_eq!(ctx.mode(), OsMode::Nonblocking);
    assert!(!ctx.is_nonblocking());

    let mut ctx = IoContext::from_parts(false, OsMode::Blocking);
    let mut invoked = false;
    let r = ctx.check_nonblocking(|_| {
        invoked = true;
        Ok(())
    });
    assert_eq!(r.unwrap(), false);
    assert!(!invoked);
    assert_eq!(ctx.mode(), OsMode::Blocking);
    assert!(!ctx.is_nonblocking());
}

#[test]
fn raw_check_with_request_on_a_nonblocking_descriptor_answers_true() {
    let mut ctx = IoContext::new();
    ctx.set_nonblocking(true);
    let mut invoked = false;
    let r = ctx.check_nonblocking(|_| {
        invoked = true;
        Ok(())
    });
    assert_eq!(r.unwrap(), true);
    assert!(!invoked);
    assert_eq!(ctx.mode(), OsMode::Nonblocking);
}

#[test]
fn raw_check_with_request_makes_a_blocking_descriptor_nonblocking_once() {
    let mut ctx = IoContext::new();
    ctx.check_context(false, |_| Ok(())).unwrap();
    assert_eq!(ctx.mode(), OsMode::Blocking);
    ctx.set_nonblocking(true);

    let mut toggles: Vec<bool> = Vec::new();
    for _ in 0..3 {
        let r = ctx.check_nonblocking(|on| {
            toggles.push(on);
            Ok(())
        });
        assert_eq!(r.unwrap(), true);
        assert_eq!(ctx.mode(), OsMode::Nonblocking);
    }
    assert_eq!(toggles, vec![true]);
}

#[test]
fn raw_request_can_be_withdrawn() {
    let mut ctx = IoContext::new();
    ctx.set_nonblocking(true);
    assert_eq!(ctx.check_nonblocking(|_| Ok(())).unwrap(), true);
    ctx.set_nonblocking(false);
    assert_eq!(ctx.check_nonblocking(|_| Ok(())).unwrap(), false);
}

#[test]
fn failed_toggle_of_a_context_check_is_handed_back_and_tried_again() {
    let mut ctx = IoContext::new();

    let mut toggles: Vec<bool> = Vec::new();
    let r = ctx.check_context(false, |on| {
        toggles.push(on);
        Err(Error::new(ErrorKind::PermissionDenied, "mode change refused"))
    });
    let e = r.unwrap_err();
    assert_eq!(e.kind(), ErrorKind::PermissionDenied);
    assert_eq!(e.to_string(), "mode change refused");
    assert_eq!(toggles, vec![false]);
    assert_eq!(ctx.mode(), OsMode::Nonblocking);

    let r = ctx.check_context(false, |on| {
        toggles.push(on);
        Err(Error::from_raw_os_error(9))
    });
    assert_eq!(r.unwrap_err().raw_os_error(), Some(9));
    assert_eq!(toggles, vec![false, false]);
    assert_eq!(ctx.mode(), OsMode::Nonblocking);

    let r = ctx.check_context(false, |on| {
        toggles.push(on);
        Ok(())
    });
    assert_eq!(r.unwrap(), false);
    assert_eq!(toggles, vec![false, false, false]);
    assert_eq!(ctx.mode(), OsMode::Blocking);
}

#[test]
fn failed_toggle_of_a_raw_check_is_handed_back_and_tried_again() {
    let mut ctx = IoContext::from_parts(true, OsMode::Blocking);

    let mut toggles: Vec<bool> = Vec::new();
    let r = ctx.check_nonblocking(|on| {
        toggles.push(on);
        Err(Error::new(ErrorKind::Other, "no"))
    });
    let e = r.unwrap_err();
    assert_eq!(e.kind(), ErrorKind::Other);
    assert_eq!(e.to_string(), "no");
    assert_eq!(ctx.mode(), OsMode::Blocking);
    assert!(ctx.is_nonblocking());

    let r = ctx.check_nonblocking(|on| {
        toggles.push(on);
        Ok(())
    });
    assert_eq!(r.unwrap(), true);
    assert_eq!(toggles, vec![true, true]);
    assert_eq!(ctx.mode(), OsMode::Nonblocking);
}

#[test]
fn failed_context_toggle_is_tried_again_by_a_raw_check_for_the_same_mode() {
    let mut ctx = IoContext::from_parts(true, OsMode::Blocking);
    let r = ctx.check_context(true, |_| Err(Error::new(ErrorKind::Other, "no")));
    assert!(r.is_err());
    assert_eq!(ctx.mode(), OsMode::Blocking);

    let mut toggles: Vec<bool> = Vec::new();
    let r = ctx.check_nonblocking(|on| {
        toggles.push(on);
        Ok(())
    });
    assert_eq!(r.unwrap(), true);
    assert_eq!(toggles, vec![true]);
}

#[test]
fn mode_and_flag_name_each_other() {
    assert_eq!(OsMode::from_flag(true), OsMode::Nonblocking);
    assert_eq!(OsMode::from_flag(false), OsMode::Blocking);
    assert_eq!(OsMode::Nonblocking.flag(), true);
    assert_eq!(OsMode::Blocking.flag(), false);
}

#[test]
fn coroutines_need_nonblocking_and_threads_blocking() {
    assert_eq!(OsMode::for_context(true), OsMode::Nonblocking);
    assert_eq!(OsMode::for_context(false), OsMode::Blocking);
}
