use std::cmp::Ordering;
use babeltrace2_sys::status::{STATUS_AGAIN, STATUS_END, STATUS_ERROR, STATUS_OK};
use babeltrace2_sys::{
    check_pipeline_ports, decoder_connection_plan, encoder_connection_plan, next_method_outcome,
    run_status_from_code, source_initialize_status, BtResultExt, ClockClass, ComponentKind, Connection, CtfIterator,
    CtfPluginSinkFsInitParams, CtfPluginSourceFsInitParams, CtfPluginSourceInitParams,
    CtfPluginSourceLttnLiveInitParams, CtfStream, Env, EnvEntry, EnvValue, Error, compare_keys, Event, EventClass, Field,
    FieldType, Graph, LoggingLevel, Message, MessageArray, MessageIteratorStatus, MessageType,
    NextStatus, OwnedField, ParamValue, Port, PortDirection, PullStep, RawEnvValue, RunStatus,
    ScalarField, SessionNotFoundAction, Stream, Trace,
};

fn s(t: &str) -> String {
    String::from(t)
}

#[test]
fn capi_results() {
    assert_eq!(0i32.capi_result(), Ok(()));
    assert_eq!((-12i32).capi_result(), Err(Error::Failure(-12)));
}

#[test]
fn run_status_codes() {
    assert_eq!(run_status_from_code(STATUS_OK), Ok(RunStatus::Progress));
    assert_eq!(run_status_from_code(STATUS_END), Ok(RunStatus::End));
    assert_eq!(run_status_from_code(STATUS_AGAIN), Ok(RunStatus::TryAgain));
    assert_eq!(run_status_from_code(-1), Err(Error::Failure(-1)));
    assert_eq!(NextStatus::from_code(STATUS_OK), Ok(NextStatus::Ready));
    assert_eq!(NextStatus::from_code(STATUS_END), Ok(NextStatus::End));
    assert_eq!(NextStatus::from_code(STATUS_AGAIN), Ok(NextStatus::TryAgain));
    assert_eq!(NextStatus::from_code(-12), Err(Error::Failure(-12)));
}

#[test]
fn end_is_sticky() {
    let mut g = Graph::new();
    assert_eq!(g.run_once(STATUS_OK), Ok(RunStatus::Progress));
    assert_eq!(g.run_once(STATUS_AGAIN), Ok(RunStatus::TryAgain));
    assert!(!g.is_ended());
    assert_eq!(g.run_once(STATUS_END), Ok(RunStatus::End));
    assert!(g.is_ended());
    assert_eq!(g.run_once(STATUS_OK), Ok(RunStatus::End));
    assert_eq!(g.run_once(-1), Ok(RunStatus::End));
}

#[test]
fn failed_step_does_not_end_the_graph() {
    let mut g = Graph::new();
    assert_eq!(g.run_once(-1), Err(Error::Failure(-1)));
    assert!(!g.is_ended());
    assert_eq!(g.run_once(STATUS_OK), Ok(RunStatus::Progress));
}

#[test]
fn pipeline_port_checks() {
    assert_eq!(check_pipeline_ports(0, 1), Err(Error::CtfSourceMissingOutputPorts));
    assert_eq!(check_pipeline_ports(0, 0), Err(Error::CtfSourceMissingOutputPorts));
    assert_eq!(check_pipeline_ports(2, 0), Err(Error::ProxySinkMissingInputPort));
    assert_eq!(check_pipeline_ports(2, 1), Ok(()));
}

fn port(direction: PortDirection, component: ComponentKind, index: u64) -> Port {
    Port { direction, component, index }
}

#[test]
fn connection_plans() {
    let plan = decoder_connection_plan(2);
    assert_eq!(
        plan,
        vec![
            Connection {
                upstream: port(PortDirection::Output, ComponentKind::Source, 0),
                downstream: port(PortDirection::Input, ComponentKind::Filter, 0),
            },
            Connection {
                upstream: port(PortDirection::Output, ComponentKind::Source, 1),
                downstream: port(PortDirection::Input, ComponentKind::Filter, 1),
            },
            Connection {
                upstream: port(PortDirection::Output, ComponentKind::Filter, 0),
                downstream: port(PortDirection::Input, ComponentKind::Sink, 0),
            },
        ]
    );
    assert_eq!(encoder_connection_plan().len(), 2);
    assert_eq!(Port::new(PortDirection::Input, ComponentKind::Source, 0), None);
    assert_eq!(Port::new(PortDirection::Output, ComponentKind::Sink, 0), None);
    assert_eq!(
        Port::new(PortDirection::Input, ComponentKind::Filter, 3),
        Some(port(PortDirection::Input, ComponentKind::Filter, 3))
    );
}

#[test]
fn trace_errors() {
    let bad_name = Trace { name: Some(vec![0xff, 0xfe]), uuid: None, environment: vec![] };
    assert_eq!(bad_name.properties(), Err(Error::Utf8Error));
    let short_uuid = Trace { name: None, uuid: Some(vec![0; 15]), environment: vec![] };
    assert_eq!(short_uuid.properties(), Err(Error::Uuid));
    let bad_env = Trace {
        name: None,
        uuid: None,
        environment: vec![EnvEntry { name: Some(b"k".to_vec()), value: RawEnvValue::Unsupported(8) }],
    };
    assert_eq!(bad_env.properties(), Err(Error::EnvValue));
}

#[test]
fn trace_without_environment() {
    let t = Trace { name: Some(vec![]), uuid: None, environment: vec![] };
    let p = t.properties().unwrap();
    assert_eq!(p.name, None);
    assert_eq!(p.uuid, None);
    assert!(p.env.is_none());
}

#[test]
fn nameless_and_empty_env_entries_are_skipped() {
    let t = Trace {
        name: Some(b"t".to_vec()),
        uuid: Some(vec![0xff; 16]),
        environment: vec![
            EnvEntry { name: None, value: RawEnvValue::Unsupported(1) },
            EnvEntry { name: Some(b"empty".to_vec()), value: RawEnvValue::String(Some(vec![])) },
            EnvEntry { name: Some(b"n".to_vec()), value: RawEnvValue::SignedInteger(-5) },
        ],
    };
    let p = t.properties().unwrap();
    assert_eq!(p.name, Some(s("t")));
    assert_eq!(p.uuid, Some(u128::MAX));
    assert_eq!(p.env.unwrap().entries().len(), 1);
}

#[test]
fn stream_properties_with_clock() {
    let clock = ClockClass {
        frequency: 1_000_000_000,
        offset_seconds: 2,
        offset_cycles: 3,
        precision: 0,
        origin_is_unix_epoch: true,
        name: Some(b"default".to_vec()),
        description: None,
        uuid: None,
    };
    let st = Stream { id: 4, name: None, clock_class: Some(clock), trace: None };
    let p = st.properties().unwrap();
    assert_eq!(p.id, 4);
    let c = p.clock.unwrap();
    assert_eq!(c.frequency, 1_000_000_000);
    assert_eq!(c.offset_seconds, 2);
    assert!(c.unix_epoch_origin);
    assert_eq!(c.name, Some(s("default")));
    assert_eq!(st.trace().err(), Some(Error::ResourceBorrow));
}

#[test]
fn structure_drops_unsupported_members() {
    let f = Field::Structure(vec![
        (Some(b"a".to_vec()), Field::Unsupported(2)),
        (Some(b"b".to_vec()), Field::SignedInteger(-3)),
        (Some(b"c".to_vec()), Field::String(Some(vec![]))),
        (None, Field::Structure(vec![(Some(b"d".to_vec()), Field::Bool(true))])),
    ]);
    assert_eq!(
        f.to_owned(),
        Ok(Some(OwnedField::Structure(vec![
            OwnedField::Scalar(Some(s("b")), ScalarField::SignedInteger(-3)),
            OwnedField::Structure(vec![OwnedField::Scalar(Some(s("d")), ScalarField::Bool(true))]),
        ])))
    );
}

#[test]
fn structure_of_nothing_is_no_field() {
    let f = Field::Structure(vec![(Some(b"a".to_vec()), Field::Unsupported(2))]);
    assert_eq!(f.to_owned(), Ok(None));
    assert_eq!(Field::Structure(vec![]).to_owned(), Ok(None));
}

#[test]
fn enumeration_labels() {
    let f = Field::UnsignedEnumeration(3, 0, vec![Some(b"RED".to_vec()), None, Some(b"ROUGE".to_vec())]);
    assert_eq!(
        f.to_owned(),
        Ok(Some(OwnedField::Scalar(None, ScalarField::UnsignedEnumeration(3, vec![s("RED"), s("ROUGE")]))))
    );
    let failed = Field::SignedEnumeration(-1, -12, vec![]);
    assert_eq!(failed.to_owned(), Err(Error::Failure(-12)));
    let bad = Field::String(Some(vec![0xc3]));
    assert_eq!(bad.to_owned(), Err(Error::Utf8Error));
}

#[test]
fn field_types() {
    assert_eq!(FieldType::from_raw(1), FieldType::Bool);
    assert_eq!(FieldType::from_raw(1024), FieldType::Structure);
    assert_eq!(FieldType::from_raw(2), FieldType::Unsupported(2));
    assert!(FieldType::String.is_supported());
    assert!(!FieldType::Unsupported(2).is_supported());
    assert_eq!(Field::DoublePrecisionReal(0).get_type(), FieldType::DoublePrecisionReal);
}

#[test]
fn source_params() {
    let inputs = vec![s("/a"), s("/b")];
    let p = CtfPluginSourceInitParams::new(Some("name"), Some(5), None, Some(true), &inputs).unwrap();
    assert_eq!(
        p.params().entries(),
        &vec![
            (s("inputs"), ParamValue::StringArray(inputs.clone())),
            (s("trace-name"), ParamValue::String(s("name"))),
            (s("clock-class-offset-ns"), ParamValue::SignedInteger(5)),
            (s("force-clock-class-origin-unix-epoch"), ParamValue::Bool(true)),
        ]
    );
    assert_eq!(
        CtfPluginSourceInitParams::new(None, None, None, None, &[]).err(),
        Some(Error::CtfSourceRequiresInputs)
    );
    assert_eq!(
        CtfPluginSourceFsInitParams::new(None, None, Some(-1), None, &[]).err(),
        Some(Error::CtfSourceRequiresInputs)
    );
    let fs = CtfPluginSourceFsInitParams::new(None, None, Some(-1), None, &inputs[..1]).unwrap();
    assert_eq!(
        fs.params().entries(),
        &vec![
            (s("inputs"), ParamValue::StringArray(vec![s("/a")])),
            (s("clock-class-offset-s"), ParamValue::SignedInteger(-1)),
        ]
    );
}

#[test]
fn sink_and_live_params() {
    let p = CtfPluginSinkFsInitParams::new(Some(true), None, Some(false), None, "/out").unwrap();
    assert_eq!(
        p.params().entries(),
        &vec![
            (s("assume-single-trace"), ParamValue::Bool(true)),
            (s("ignore-discarded-packets"), ParamValue::Bool(false)),
            (s("path"), ParamValue::String(s("/out"))),
        ]
    );
    let l = CtfPluginSourceLttnLiveInitParams::new("net://localhost/host/h/s", Some(SessionNotFoundAction::End))
        .unwrap();
    assert_eq!(
        l.params().entries(),
        &vec![
            (s("inputs"), ParamValue::StringArray(vec![s("net://localhost/host/h/s")])),
            (s("session-not-found-action"), ParamValue::String(s("end"))),
        ]
    );
}

#[test]
fn logging_levels() {
    assert_eq!(LoggingLevel::default(), LoggingLevel::Off);
    assert_eq!(LoggingLevel::Trace.native_level(), 1);
    assert_eq!(LoggingLevel::Warn.native_level(), 4);
    assert_eq!(LoggingLevel::Off.native_level(), 0xff);
    assert_eq!(LoggingLevel::Warn.as_str(), "warn");
    assert_eq!(LoggingLevel::Off.as_str(), "none");
}

#[test]
fn user_iterator_outcomes() {
    assert_eq!(next_method_outcome(&Ok(MessageIteratorStatus::NoMessages)), (STATUS_AGAIN, None));
    assert_eq!(next_method_outcome(&Ok(MessageIteratorStatus::Messages(3))), (STATUS_OK, Some(3)));
    assert_eq!(next_method_outcome(&Ok(MessageIteratorStatus::Done)), (STATUS_END, None));
    assert_eq!(next_method_outcome(&Err(Error::PluginError(s("x")))), (STATUS_ERROR, None));
}

fn event_message(id: u64) -> Message {
    let e = Event {
        stream_id: 1,
        clock_snapshot: None,
        class: Some(EventClass { id, name: None, log_level: None }),
        payload: None,
        specific_context: None,
        common_context: None,
    };
    Message::from_raw(MessageType::Event, None, Some(e))
}

#[test]
fn live_stream_metadata_and_chunks() {
    let mut st = CtfStream::new();
    assert!(!st.has_metadata());
    assert_eq!(st.update(STATUS_AGAIN), Ok(RunStatus::TryAgain));
    assert!(!st.has_metadata());
    {
        let p = st.proxy_state_mut();
        p.initialize(&Ok(()));
        p.graph_is_configured(&Ok(()));
        p.consume(Ok((NextStatus::Ready, MessageArray::new(vec![event_message(1), event_message(2)]))))
            .unwrap();
    }
    assert_eq!(st.update(STATUS_OK), Ok(RunStatus::Progress));
    assert!(st.has_metadata());
    let chunk = st.events_chunk();
    assert_eq!(chunk.iter().map(|e| e.class_properties.id).collect::<Vec<_>>(), vec![1, 2]);
    assert!(st.events_chunk().is_empty());
    assert_eq!(st.trace_properties().name, None);
    assert!(st.stream_properties().is_empty());
}

#[test]
fn pull_iterator_steps() {
    let mut it = CtfIterator::new();
    assert!(matches!(it.next_step(), PullStep::RunGraph));
    {
        let p = it.proxy_state_mut();
        p.initialize(&Ok(()));
        p.graph_is_configured(&Ok(()));
        p.consume(Ok((NextStatus::Ready, MessageArray::new(vec![event_message(7), event_message(8)]))))
            .unwrap();
    }
    match it.after_run(STATUS_OK) {
        Some(Ok(e)) => assert_eq!(e.class_properties.id, 7),
        _ => panic!("expected an event"),
    }
    match it.next_step() {
        PullStep::Event(e) => assert_eq!(e.class_properties.id, 8),
        _ => panic!("expected an event"),
    }
    assert!(matches!(it.after_run(-1), Some(Err(Error::Failure(-1)))));
    assert!(it.after_run(STATUS_END).is_none());
    assert_eq!(it.last_run_status(), RunStatus::End);
    assert!(matches!(it.next_step(), PullStep::Finished));
    assert!(it.trace_properties().env.is_none());
    assert!(it.stream_properties().is_empty());
}

#[test]
fn user_source_initialize_status() {
    assert_eq!(source_initialize_status(&Ok(()), &Some(Ok(()))), STATUS_OK);
    assert_eq!(source_initialize_status(&Err(Error::PluginError(s("no"))), &None), STATUS_ERROR);
    assert_eq!(source_initialize_status(&Ok(()), &Some(Err(Error::Failure(-12)))), STATUS_ERROR);
    assert_eq!(source_initialize_status(&Ok(()), &None), STATUS_ERROR);
}

fn int_entry(name: &str, v: i64) -> EnvEntry {
    EnvEntry { name: Some(name.as_bytes().to_vec()), value: RawEnvValue::SignedInteger(v) }
}

#[test]
fn environment_keys_are_unique_and_ascending() {
    let t = Trace {
        name: None,
        uuid: None,
        environment: vec![
            int_entry("zeta", 1),
            int_entry("alpha", 2),
            int_entry("mid", 3),
            int_entry("alpha", 4),
            EnvEntry { name: Some(b"beta".to_vec()), value: RawEnvValue::String(Some(b"x".to_vec())) },
        ],
    };
    let env = t.properties().unwrap().env.unwrap();
    assert_eq!(
        env.entries(),
        &vec![
            (s("alpha"), EnvValue::Integer(4)),
            (s("beta"), EnvValue::String(s("x"))),
            (s("mid"), EnvValue::Integer(3)),
            (s("zeta"), EnvValue::Integer(1)),
        ]
    );
    assert_eq!(env.get(&s("alpha")), Some(&EnvValue::Integer(4)));
}

#[test]
fn environment_order_does_not_depend_on_engine_order() {
    let a = Trace { name: None, uuid: None, environment: vec![int_entry("b", 1), int_entry("a", 2)] };
    let b = Trace { name: None, uuid: None, environment: vec![int_entry("a", 2), int_entry("b", 1)] };
    assert_eq!(a.properties().unwrap(), b.properties().unwrap());
}

#[test]
fn environment_insert_and_compare() {
    let mut env = Env::new();
    env.insert(s("é"), EnvValue::Integer(1));
    env.insert(s("z"), EnvValue::Integer(2));
    env.insert(s("Z"), EnvValue::Integer(3));
    env.insert(s("z"), EnvValue::Integer(4));
    let keys: Vec<String> = env.entries().iter().map(|e| e.0.clone()).collect();
    assert_eq!(keys, vec![s("Z"), s("z"), s("é")]);
    assert_eq!(env.clone(), env);
    assert_eq!(compare_keys(&s("ab"), &s("abc")), Ordering::Less);
    assert_eq!(compare_keys(&s("b"), &s("abc")), Ordering::Greater);
    assert_eq!(compare_keys(&s("abc"), &s("abc")), Ordering::Equal);
}

#[test]
fn parse_names() {
    assert_eq!(LoggingLevel::parse("WARNING"), Some(LoggingLevel::Warn));
    assert_eq!(LoggingLevel::parse("Err"), Some(LoggingLevel::Error));
    assert_eq!(LoggingLevel::parse("none"), Some(LoggingLevel::Off));
    assert_eq!(LoggingLevel::parse("loud"), None);
    assert_eq!("Debug".parse::<LoggingLevel>(), Ok(LoggingLevel::Debug));
    assert_eq!("loud".parse::<LoggingLevel>(), Err(s("'loud' is not a valid logging level")));
    assert_eq!(SessionNotFoundAction::parse("  FAIL \n"), Some(SessionNotFoundAction::Fail));
    assert_eq!(" End".parse::<SessionNotFoundAction>(), Ok(SessionNotFoundAction::End));
    assert_eq!("retry".parse::<SessionNotFoundAction>(), Err(s("retry is not a valid action")));
}
