use odoo_operator::db_controller::{
    db_decision, error_policy, reconcile_odoo_db, DbDecision, DbReconcileOutcome, DbStep, Error,
};
use odoo_operator::k8s::{Action, JobState, ObjectMeta, VolumeSource};
use odoo_operator::logging::{ContainerLogConfigFragment, LoggingFragment};
use odoo_operator::odoodb::{
    OdooDB, OdooDBSpec, OdooDBStatus, OdooDBStatusCondition, OdooDbConfigFragment,
};
use odoo_operator::crd::ProductImage;

fn db(status: Option<OdooDBStatus>) -> OdooDB {
    OdooDB {
        metadata: ObjectMeta {
            name: Some("odoo".to_string()),
            namespace: Some("default".to_string()),
            labels: vec![],
            owner_referenced: false,
        },
        spec: OdooDBSpec {
            image: ProductImage {
                product_version: "2.6.1".to_string(),
                stackable_version: None,
            },
            credentials_secret: "simple-odoo-credentials".to_string(),
            vector_aggregator_config_map_name: None,
            config: OdooDbConfigFragment {
                logging: LoggingFragment {
                    enable_vector_agent: None,
                    main: ContainerLogConfigFragment { level: None },
                    vector: ContainerLogConfigFragment { level: None },
                },
            },
        },
        status,
    }
}

fn status(condition: OdooDBStatusCondition) -> OdooDBStatus {
    OdooDBStatus {
        started_at: Some("2024-01-01T00:00:00Z".to_string()),
        condition,
    }
}

#[test]
fn test_state_machine_totality() {
    // Every state and trigger decides exactly one defined step.
    assert_eq!(DbDecision::StampPending, db_decision(&None, false, &None));
    assert_eq!(DbDecision::StampPending, db_decision(&None, true, &Some(JobState::Complete)));
    assert_eq!(
        DbDecision::StartInitialization,
        db_decision(&Some(OdooDBStatusCondition::Pending), true, &None)
    );
    assert_eq!(
        DbDecision::RetryLater,
        db_decision(&Some(OdooDBStatusCondition::Pending), false, &None)
    );
    assert_eq!(
        DbDecision::MarkReady,
        db_decision(
            &Some(OdooDBStatusCondition::Initializing),
            true,
            &Some(JobState::Complete)
        )
    );
    assert_eq!(
        DbDecision::MarkFailed,
        db_decision(
            &Some(OdooDBStatusCondition::Initializing),
            false,
            &Some(JobState::Failed)
        )
    );
    assert_eq!(
        DbDecision::KeepWaiting,
        db_decision(
            &Some(OdooDBStatusCondition::Initializing),
            true,
            &Some(JobState::InProgress)
        )
    );
    assert_eq!(
        DbDecision::JobMissing,
        db_decision(&Some(OdooDBStatusCondition::Initializing), true, &None)
    );
    for secret_exists in [false, true] {
        for job_state in [
            None,
            Some(JobState::InProgress),
            Some(JobState::Complete),
            Some(JobState::Failed),
        ] {
            assert_eq!(
                DbDecision::Done,
                db_decision(&Some(OdooDBStatusCondition::Ready), secret_exists, &job_state)
            );
            assert_eq!(
                DbDecision::Done,
                db_decision(&Some(OdooDBStatusCondition::Failed), secret_exists, &job_state)
            );
        }
    }
}

#[test]
fn test_first_observation_stamps_pending() {
    let outcome = reconcile_odoo_db(
        &db(None),
        false,
        &None,
        "2024-05-01T12:00:00Z".to_string(),
        "odoo-sa",
    )
    .unwrap();
    assert_eq!(Action::AwaitChange, outcome.action);
    match outcome.step {
        DbStep::SetStatus(s) => {
            assert_eq!(OdooDBStatusCondition::Pending, s.condition);
            assert_eq!(Some("2024-05-01T12:00:00Z".to_string()), s.started_at);
        }
        other => panic!("unexpected step {:?}", other),
    }
}

#[test]
fn test_pending_with_secret_starts_initialization() {
    let outcome = reconcile_odoo_db(
        &db(Some(status(OdooDBStatusCondition::Pending))),
        true,
        &None,
        "now".to_string(),
        "odoo-sa",
    )
    .unwrap();
    match outcome.step {
        DbStep::ApplyInitialization {
            config_map,
            job,
            new_status,
        } => {
            assert_eq!(Some("odoo-init-db".to_string()), config_map.metadata.name);
            assert_eq!(Some("odoo".to_string()), job.metadata.name);
            assert!(job.metadata.owner_referenced);
            assert_eq!(Some("Never".to_string()), job.template.restart_policy);
            assert_eq!(
                Some("odoo-sa".to_string()),
                job.template.service_account_name
            );
            let init = &job.template.containers[0];
            assert_eq!("odoo-init-db", init.name);
            assert_eq!(
                "odoo db init; odoo db upgrade; odoo users create \
                 --username \"$ADMIN_USERNAME\" --firstname \"$ADMIN_FIRSTNAME\" \
                 --lastname \"$ADMIN_LASTNAME\" --email \"$ADMIN_EMAIL\" \
                 --password \"$ADMIN_PASSWORD\" --role \"Admin\"; \
                 mkdir -p /stackable/log/_vector && touch /stackable/log/_vector/shutdown",
                init.args[1]
            );
            assert_eq!(
                "simple-odoo-credentials",
                init.env[0].value_from_secret.as_ref().unwrap().secret
            );
            assert!(matches!(
                job.template.volumes[0].source,
                VolumeSource::FromConfigMap { .. }
            ));
            assert_eq!(OdooDBStatusCondition::Initializing, new_status.condition);
            assert_eq!(
                Some("2024-01-01T00:00:00Z".to_string()),
                new_status.started_at
            );
        }
        other => panic!("unexpected step {:?}", other),
    }
}

#[test]
fn test_pending_without_secret_is_retryable() {
    let err = reconcile_odoo_db(
        &db(Some(status(OdooDBStatusCondition::Pending))),
        false,
        &None,
        "now".to_string(),
        "odoo-sa",
    )
    .unwrap_err();
    match err {
        Error::SecretCheck { secret } => assert_eq!("simple-odoo-credentials", secret),
        other => panic!("unexpected error {:?}", other),
    }
    assert_eq!(Action::Requeue { seconds: 5 }, error_policy());
}

#[test]
fn test_initializing_job_completion_marks_ready() {
    let outcome = reconcile_odoo_db(
        &db(Some(status(OdooDBStatusCondition::Initializing))),
        true,
        &Some(JobState::Complete),
        "now".to_string(),
        "odoo-sa",
    )
    .unwrap();
    match outcome.step {
        DbStep::SetStatus(s) => {
            assert_eq!(OdooDBStatusCondition::Ready, s.condition);
            assert_eq!(Some("2024-01-01T00:00:00Z".to_string()), s.started_at);
        }
        other => panic!("unexpected step {:?}", other),
    }
}

#[test]
fn test_initializing_job_failure_marks_failed() {
    let outcome = reconcile_odoo_db(
        &db(Some(status(OdooDBStatusCondition::Initializing))),
        true,
        &Some(JobState::Failed),
        "now".to_string(),
        "odoo-sa",
    )
    .unwrap();
    match outcome.step {
        DbStep::SetStatus(s) => assert_eq!(OdooDBStatusCondition::Failed, s.condition),
        other => panic!("unexpected step {:?}", other),
    }
}

#[test]
fn test_initializing_job_running_is_noop() {
    let outcome = reconcile_odoo_db(
        &db(Some(status(OdooDBStatusCondition::Initializing))),
        true,
        &Some(JobState::InProgress),
        "now".to_string(),
        "odoo-sa",
    )
    .unwrap();
    assert_eq!(DbStep::NoOp, outcome.step);
}

#[test]
fn test_initializing_missing_job_is_error() {
    let err = reconcile_odoo_db(
        &db(Some(status(OdooDBStatusCondition::Initializing))),
        true,
        &None,
        "now".to_string(),
        "odoo-sa",
    )
    .unwrap_err();
    match err {
        Error::GetInitializationJob { init_job } => assert_eq!("odoo", init_job),
        other => panic!("unexpected error {:?}", other),
    }
}

#[test]
fn test_terminal_states_are_noops() {
    for condition in [OdooDBStatusCondition::Ready, OdooDBStatusCondition::Failed] {
        let outcome: DbReconcileOutcome = reconcile_odoo_db(
            &db(Some(status(condition))),
            false,
            &None,
            "now".to_string(),
            "odoo-sa",
        )
        .unwrap();
        assert_eq!(DbStep::NoOp, outcome.step);
    }
}

#[test]
fn test_missing_namespace_is_error() {
    let mut resource = db(None);
    resource.metadata.namespace = None;
    let err = reconcile_odoo_db(&resource, false, &None, "now".to_string(), "odoo-sa").unwrap_err();
    assert_eq!(Error::ObjectHasNoNamespace, err);
    assert_eq!("ObjectHasNoNamespace", err.category());
}

#[test]
fn test_starting_initialization_needs_object_name() {
    let mut resource = db(Some(status(OdooDBStatusCondition::Pending)));
    resource.metadata.name = None;
    let err = reconcile_odoo_db(&resource, true, &None, "now".to_string(), "odoo-sa").unwrap_err();
    assert_eq!(Error::ObjectMissingMetadataForOwnerRef, err);
}
