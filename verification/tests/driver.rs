use rama::error::{is_connection_error, IoError, IoErrorKind};
use rama::http::server::hyper_conn::{
    map_boxed_hyper_result, map_hyper_err_to_result, map_hyper_result, ConnectionDriver,
    DriverAction, DriverEvent, DriverState, H2Error, HyperCause, HyperError, ServeError,
};

fn hyper_error(canceled: bool, closed: bool, cause: HyperCause) -> HyperError {
    HyperError { canceled, closed, cause, message: "hyper".to_owned() }
}

#[test]
fn reset_by_peer_is_success() {
    let reset = IoError::new(IoErrorKind::ConnectionReset, "connection reset by peer");
    assert!(is_connection_error(&reset));
    assert_eq!(map_boxed_hyper_result(Err(ServeError::Io(reset))), Ok(()));
}

#[test]
fn an_unrecognised_io_error_is_handed_on() {
    let error = IoError::new(IoErrorKind::InvalidData, "garbage");
    assert!(!is_connection_error(&error));
    assert_eq!(
        map_boxed_hyper_result(Err(ServeError::Io(IoError::new(IoErrorKind::InvalidData, "garbage")))),
        Err(ServeError::Io(error))
    );
}

#[test]
fn disconnects_are_told_from_other_io_errors() {
    for (kind, benign) in [
        (IoErrorKind::ConnectionReset, true),
        (IoErrorKind::BrokenPipe, true),
        (IoErrorKind::ConnectionAborted, true),
        (IoErrorKind::NotConnected, true),
        (IoErrorKind::ConnectionRefused, false),
        (IoErrorKind::TimedOut, false),
        (IoErrorKind::UnexpectedEof, false),
        (IoErrorKind::InvalidData, false),
        (IoErrorKind::Other, false),
    ] {
        let error = IoError::new(kind, "io");
        assert_eq!(error.kind(), kind);
        assert_eq!(error.message(), "io");
        assert_eq!(error.to_string(), "io");
        assert_eq!(is_connection_error(&error), benign);
        assert_eq!(map_boxed_hyper_result(Err(ServeError::Io(error))).is_ok(), benign);
    }
}

#[test]
fn orderly_ends_of_the_http_layer_are_success() {
    assert_eq!(map_hyper_err_to_result(hyper_error(true, false, HyperCause::Nothing)), Ok(()));
    assert_eq!(map_hyper_err_to_result(hyper_error(false, true, HyperCause::Other)), Ok(()));
    assert_eq!(
        map_hyper_err_to_result(hyper_error(
            false,
            false,
            HyperCause::H2(H2Error { go_away: true, io: false })
        )),
        Ok(())
    );
    assert_eq!(
        map_hyper_err_to_result(hyper_error(
            false,
            false,
            HyperCause::H2(H2Error { go_away: false, io: true })
        )),
        Ok(())
    );
    assert_eq!(
        map_hyper_err_to_result(hyper_error(
            false,
            false,
            HyperCause::Io(IoError::new(IoErrorKind::BrokenPipe, "broken pipe"))
        )),
        Ok(())
    );
    assert_eq!(map_hyper_result(Ok(())), Ok(()));
    assert_eq!(map_boxed_hyper_result(Ok(())), Ok(()));
}

#[test]
fn other_errors_of_the_http_layer_are_handed_on() {
    assert_eq!(
        map_hyper_err_to_result(hyper_error(false, false, HyperCause::Nothing)),
        Err(ServeError::Hyper(hyper_error(false, false, HyperCause::Nothing)))
    );
    assert_eq!(
        map_hyper_result(Err(hyper_error(
            false,
            false,
            HyperCause::H2(H2Error { go_away: false, io: false })
        ))),
        Err(ServeError::Hyper(hyper_error(
            false,
            false,
            HyperCause::H2(H2Error { go_away: false, io: false })
        )))
    );
    assert_eq!(
        map_boxed_hyper_result(Err(ServeError::Hyper(hyper_error(
            false,
            false,
            HyperCause::Io(IoError::new(IoErrorKind::TimedOut, "timed out"))
        )))),
        Err(ServeError::Hyper(hyper_error(
            false,
            false,
            HyperCause::Io(IoError::new(IoErrorKind::TimedOut, "timed out"))
        )))
    );
    assert_eq!(
        map_boxed_hyper_result(Err(ServeError::Hyper(hyper_error(true, false, HyperCause::Other)))),
        Ok(())
    );
    assert_eq!(
        map_boxed_hyper_result(Err(ServeError::Other("boom".to_owned()))),
        Err(ServeError::Other("boom".to_owned()))
    );
}

#[test]
fn without_a_guard_the_driver_waits_for_the_connection() {
    let (mut driver, action) = ConnectionDriver::start(false, true);
    assert_eq!(action, DriverAction::Await);
    assert_eq!(driver.state(), DriverState::Serving);

    assert_eq!(driver.on_event(DriverEvent::Finished(Ok(()))), DriverAction::Return(Ok(())));
    assert_eq!(driver.state(), DriverState::Done);
}

#[test]
fn with_a_guard_the_driver_races() {
    let (mut driver, action) = ConnectionDriver::start(true, true);
    assert_eq!(action, DriverAction::Race);

    let failure = ServeError::Other("fatal".to_owned());
    assert_eq!(
        driver.on_event(DriverEvent::Finished(Err(ServeError::Other("fatal".to_owned())))),
        DriverAction::Return(Err(failure))
    );
    assert_eq!(driver.state(), DriverState::Done);
    assert_eq!(driver.on_event(DriverEvent::Cancelled), DriverAction::Nothing);
    assert_eq!(driver.on_event(DriverEvent::Finished(Ok(()))), DriverAction::Nothing);
    assert_eq!(driver.state(), DriverState::Done);
}

#[test]
fn cancellation_asks_for_shutdown_once_and_keeps_the_classification() {
    let (mut driver, action) = ConnectionDriver::start(true, true);
    assert_eq!(action, DriverAction::Race);

    assert_eq!(driver.on_event(DriverEvent::Cancelled), DriverAction::ShutdownThenAwait);
    assert_eq!(driver.state(), DriverState::GracefulShutdownRequested);
    assert_eq!(driver.on_event(DriverEvent::Cancelled), DriverAction::Await);
    assert_eq!(driver.state(), DriverState::GracefulShutdownRequested);

    let reset = IoError::new(IoErrorKind::ConnectionReset, "reset");
    assert_eq!(
        driver.on_event(DriverEvent::Finished(Err(ServeError::Io(reset)))),
        DriverAction::Return(Ok(()))
    );
    assert_eq!(driver.state(), DriverState::Done);

    let (mut driver, _) = ConnectionDriver::start(true, true);
    assert_eq!(driver.on_event(DriverEvent::Cancelled), DriverAction::ShutdownThenAwait);
    assert_eq!(
        driver.on_event(DriverEvent::Finished(Err(ServeError::Other("fatal".to_owned())))),
        DriverAction::Return(Err(ServeError::Other("fatal".to_owned())))
    );
}

#[test]
fn a_connection_that_cannot_wind_down_is_awaited() {
    let (mut driver, action) = ConnectionDriver::start(true, false);
    assert_eq!(action, DriverAction::Race);
    assert_eq!(driver.on_event(DriverEvent::Cancelled), DriverAction::Await);
    assert_eq!(driver.state(), DriverState::GracefulShutdownRequested);
    assert_eq!(driver.on_event(DriverEvent::Finished(Ok(()))), DriverAction::Return(Ok(())));

    let (mut driver, _) = ConnectionDriver::start(false, true);
    assert_eq!(driver.on_event(DriverEvent::Cancelled), DriverAction::Await);
    assert_eq!(driver.state(), DriverState::Serving);
}

#[test]
fn every_server_of_the_library_can_wind_down() {
    let http1 = hyper::server::conn::http1::Builder::new();
    let (mut driver, action) = ConnectionDriver::for_server(&http1, true);
    assert_eq!(action, DriverAction::Race);
    assert_eq!(driver.on_event(DriverEvent::Cancelled), DriverAction::ShutdownThenAwait);

    let http2 = hyper::server::conn::http2::Builder::new(hyper_util::rt::TokioExecutor::new());
    let (mut driver, action) = ConnectionDriver::for_server(&http2, false);
    assert_eq!(action, DriverAction::Await);
    assert_eq!(driver.on_event(DriverEvent::Finished(Ok(()))), DriverAction::Return(Ok(())));

    let auto = hyper_util::server::conn::auto::Builder::new(hyper_util::rt::TokioExecutor::new());
    let (mut driver, action) = ConnectionDriver::for_server(&auto, true);
    assert_eq!(action, DriverAction::Race);
    assert_eq!(driver.on_event(DriverEvent::Cancelled), DriverAction::ShutdownThenAwait);
    assert_eq!(driver.state(), DriverState::GracefulShutdownRequested);
}
