use vst3::{PluginResult, ResultErr, ResultOk};

#[test]
fn error_codes_are_the_documented_integers() {
    assert_eq!(ResultErr::NoInterface.to_code(), -1);
    assert_eq!(ResultErr::ResultFalse.to_code(), 1);
    assert_eq!(ResultErr::InvalidArgument.to_code(), 2);
    assert_eq!(ResultErr::NotImplemented.to_code(), 3);
    assert_eq!(ResultErr::InternalError.to_code(), 4);
    assert_eq!(ResultErr::NotInitialized.to_code(), 5);
    assert_eq!(ResultErr::OutOfMemory.to_code(), 6);
    assert_eq!(ResultOk::ResOk.to_code(), 0);
    assert_eq!(ResultOk::ResTrue.to_code(), 0);
}

#[test]
fn every_error_round_trips_through_its_code() {
    for e in [
        ResultErr::NoInterface,
        ResultErr::ResultFalse,
        ResultErr::InvalidArgument,
        ResultErr::NotImplemented,
        ResultErr::InternalError,
        ResultErr::NotInitialized,
        ResultErr::OutOfMemory,
    ] {
        assert_eq!(ResultErr::from_code(e.to_code()), e);
    }
}

#[test]
fn ok_round_trips_and_true_shares_its_code() {
    assert_eq!(ResultOk::from_code(ResultOk::ResOk.to_code()), ResultOk::ResOk);
    // The true outcome shares code 0 with ok on this encoding, so it
    // reads back as the ok outcome.
    assert_eq!(ResultOk::from_code(ResultOk::ResTrue.to_code()), ResultOk::ResOk);
}

#[test]
fn unrecognized_codes_coerce_to_safe_defaults() {
    assert_eq!(ResultErr::from_code(12345), ResultErr::ResultFalse);
    assert_eq!(ResultErr::from_code(-7), ResultErr::ResultFalse);
    assert_eq!(ResultOk::from_code(99), ResultOk::ResOk);
    assert_eq!(PluginResult::from_code(77), PluginResult::ResultFalse);
}

#[test]
fn plugin_result_round_trips_except_true() {
    for r in [
        PluginResult::NoInterface,
        PluginResult::ResultOk,
        PluginResult::ResultFalse,
        PluginResult::InvalidArgument,
        PluginResult::NotImplemented,
        PluginResult::InternalError,
        PluginResult::NotInitialized,
        PluginResult::OutOfMemory,
    ] {
        assert_eq!(PluginResult::from_code(r.to_code()), r);
    }
    assert_eq!(
        PluginResult::from_code(PluginResult::ResultTrue.to_code()),
        PluginResult::ResultOk
    );
}

#[test]
fn ok_and_error_codes_are_disjoint() {
    for k in [ResultOk::ResOk, ResultOk::ResTrue] {
        for e in [
            ResultErr::NoInterface,
            ResultErr::ResultFalse,
            ResultErr::InvalidArgument,
            ResultErr::NotImplemented,
            ResultErr::InternalError,
            ResultErr::NotInitialized,
            ResultErr::OutOfMemory,
        ] {
            assert_ne!(k.to_code(), e.to_code());
        }
    }
}

#[test]
fn unwrap_discards_the_outcome() {
    PluginResult::ResultOk.unwrap();
    PluginResult::InternalError.unwrap();
}
