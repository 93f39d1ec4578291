use rusty_d20::{
    check_reset, http_status, ApiErrorKindDto, ResetSessionRequestDto,
    health, runtime_readout, save_status_of, RuntimeReadoutDto, RuntimeStatusDto, SaveStateDto,
    SaveStatusDto, ENGINE_REVISION,
};

/// An empty runtime holds no entities, so its readout counts none.
#[test]
fn empty_readout_is_rust_owned_and_engine_backed() {
    assert_eq!(
        runtime_readout(0),
        RuntimeReadoutDto {
            product: "Rusty D20".to_owned(),
            version: "0.1.0".to_owned(),
            engine_revision: ENGINE_REVISION.to_owned(),
            status: RuntimeStatusDto::Ready,
            entity_count: 0,
        }
    );
}

#[test]
fn health_readout_and_empty_save_status() {
    let answer = health();
    assert_eq!(answer.status, "ok");
    assert_eq!(answer.version, "0.1.0");

    let readout = runtime_readout(0);
    assert_eq!(readout.product, "Rusty D20");
    assert_eq!(readout.engine_revision, ENGINE_REVISION);
    assert_eq!(readout.entity_count, 0);

    let save_path = "saves/rusty-d20.json".to_owned();
    assert_eq!(
        save_status_of(save_path.clone(), None, None, 0),
        SaveStatusDto {
            save_identity: save_path,
            state: SaveStateDto::Empty,
            campaign_id: None,
            campaign_title: None,
            revision: Some(0),
            persistence_error: None,
        }
    );
}

#[test]
fn readouts_count_entities() {
    assert_eq!(runtime_readout(42).entity_count, 42);
    assert_eq!(ENGINE_REVISION.len(), 40);
}

#[test]
fn reset_guard_refuses_stale_identity_and_revision() {
    let save_path = "saves/rusty-d20.json".to_owned();
    let camp_revision = 1;
    let status = save_status_of(
        save_path.clone(),
        None,
        Some(("wardens-gate".to_owned(), "The Warden's Gate".to_owned())),
        camp_revision,
    );
    let request = |identity: &str, revision: u64| ResetSessionRequestDto {
        expected_save_identity: identity.to_owned(),
        expected_revision: Some(revision),
        expected_adventure_id: Some("wardens-gate".to_owned()),
    };

    let wrong_identity = check_reset(&request("wrong-save", camp_revision), &status).unwrap_err();
    let body = wrong_identity.api_error("stale".to_owned());
    assert_eq!(body.kind, ApiErrorKindDto::Stale);
    assert_eq!(http_status(body.kind), 409);

    let stale = check_reset(&request(&save_path, 0), &status).unwrap_err();
    assert_eq!(http_status(stale.api_error("stale".to_owned()).kind), 409);

    assert_eq!(check_reset(&request(&save_path, camp_revision), &status), Ok(()));
}
