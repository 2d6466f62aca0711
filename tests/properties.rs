use animal_hunt::{
    Animal, AnimalHunt, AppTester, CapabilityContext, Capabilities, Core, CoreError, Effect,
    Event, InvalidEvent, Mode, Model, ResolveError, TagReaderOperation, TagReaderOutput,
    ViewModel,
};

const BADGER_URL: &str = "https://animal-hunt.red-badger.com/animal/badger";

fn practice() -> Model {
    Model::Practice {
        animal: None,
        error: None,
    }
}

fn scan_and_answer(answer: TagReaderOutput) -> (AppTester, Model) {
    let mut model = practice();
    let mut app = AppTester::new();
    let update = app.update(Event::Scan, &mut model).unwrap();
    let request = update
        .into_effects()
        .into_iter()
        .find_map(Effect::into_tag_reader)
        .unwrap();
    let update = app.resolve(&request, answer).unwrap();
    app.update(update.events[0].clone(), &mut model).unwrap();
    (app, model)
}

fn practice_view(model: &Model) -> (String, Option<String>) {
    match AnimalHunt::new().view(model) {
        ViewModel::Practice {
            animal_emoji,
            error,
        } => (animal_emoji, error),
        other => panic!("expected the practice view, got {other:?}"),
    }
}

#[test]
fn default_model_is_practice_without_animal() {
    let model = Model::default();
    assert_eq!(practice_view(&model), ("?".to_string(), None));
}

#[test]
fn set_mode_switches_between_modes() {
    let app = AnimalHunt::new();
    let caps = Capabilities::new();
    let mut context = CapabilityContext::new();
    let mut model = practice();

    app.update(Event::SetMode(Mode::Configure), &mut model, &caps, &mut context)
        .unwrap();
    assert!(matches!(model, Model::Configure { error: None }));
    app.update(Event::SetMode(Mode::Configure), &mut model, &caps, &mut context)
        .unwrap();
    assert!(matches!(model, Model::Configure { error: None }));
    app.update(Event::SetMode(Mode::Practice), &mut model, &caps, &mut context)
        .unwrap();
    assert!(matches!(
        model,
        Model::Practice {
            animal: None,
            error: None
        }
    ));
    app.update(Event::SetMode(Mode::Practice), &mut model, &caps, &mut context)
        .unwrap();
    assert!(matches!(model, Model::Practice { .. }));
}

#[test]
fn view_twice_gives_equal_values() {
    let (app, model) = scan_and_answer(TagReaderOutput::Url(BADGER_URL.to_string()));
    let first = app.view(&model);
    let second = app.view(&model);
    assert_eq!(first, second);
    assert_eq!(
        first,
        ViewModel::Practice {
            animal_emoji: "🦡".to_string(),
            error: None
        }
    );
}

#[test]
fn upper_case_name_finds_the_same_animal() {
    let (_, lower) = scan_and_answer(TagReaderOutput::Url(BADGER_URL.to_string()));
    let (_, upper) = scan_and_answer(TagReaderOutput::Url(
        "https://animal-hunt.red-badger.com/animal/BADGER".to_string(),
    ));
    let (_, mixed) = scan_and_answer(TagReaderOutput::Url(
        "https://animal-hunt.red-badger.com/animal/BaDgEr".to_string(),
    ));
    assert_eq!(practice_view(&upper), practice_view(&lower));
    assert_eq!(practice_view(&mixed), ("🦡".to_string(), None));
}

#[test]
fn animal_names_and_symbols() {
    let a = Animal::from_url("https://animal-hunt.red-badger.com/animal/Flamingo").unwrap();
    assert_eq!(a.name(), "flamingo");
    assert_eq!(a.emoji(), "🦩");
    let c = Animal::from_url("https://animal-hunt.red-badger.com/animal/crocodile").unwrap();
    assert_eq!(c.name(), "crocodile");
    assert_eq!(c.emoji(), "🐊");
}

#[test]
fn unknown_host_is_an_error() {
    let (_, model) = scan_and_answer(TagReaderOutput::Url(
        "https://evil.example/animal/badger".to_string(),
    ));
    assert_eq!(
        practice_view(&model),
        ("?".to_string(), Some("Unknown host evil.example".to_string()))
    );
}

#[test]
fn wrong_path_is_an_error() {
    let (_, model) = scan_and_answer(TagReaderOutput::Url(
        "https://animal-hunt.red-badger.com/animals/badger".to_string(),
    ));
    assert_eq!(
        practice_view(&model),
        ("?".to_string(), Some("Invalid animal URL".to_string()))
    );
}

#[test]
fn unknown_animal_is_an_error() {
    let (_, model) = scan_and_answer(TagReaderOutput::Url(
        "https://animal-hunt.red-badger.com/animal/unicorn".to_string(),
    ));
    assert_eq!(
        practice_view(&model),
        ("?".to_string(), Some("Animal not found: unicorn".to_string()))
    );
}

#[test]
fn url_without_host_is_an_error() {
    let (_, model) = scan_and_answer(TagReaderOutput::Url("unix:/run/foo.socket".to_string()));
    assert_eq!(
        practice_view(&model),
        ("?".to_string(), Some("Url missing host string".to_string()))
    );
}

#[test]
fn malformed_url_is_an_error() {
    let (_, model) = scan_and_answer(TagReaderOutput::Url("not a url".to_string()));
    assert_eq!(
        practice_view(&model),
        ("?".to_string(), Some("relative URL without a base".to_string()))
    );
}

#[test]
fn parsed_url_path_is_read_from_the_url() {
    // the query and fragment are not part of the path
    let a = Animal::from_url("https://animal-hunt.red-badger.com/animal/zebra?x=1#top").unwrap();
    assert_eq!(a.name(), "zebra");
    // the host is compared after the url crate has normalised it
    let b = Animal::from_url("https://ANIMAL-HUNT.red-badger.com/animal/pig").unwrap();
    assert_eq!(b.emoji(), "🐖");
}

#[test]
fn earlier_error_is_cleared_by_a_good_scan() {
    let mut model = Model::Practice {
        animal: None,
        error: Some("old".to_string()),
    };
    let mut app = AppTester::new();
    let update = app
        .update(
            Event::ScannedUrl(TagReaderOutput::Url(BADGER_URL.to_string())),
            &mut model,
        )
        .unwrap();
    assert_eq!(update.effects.len(), 1);
    assert_eq!(practice_view(&model), ("🦡".to_string(), None));
}

#[test]
fn resolving_twice_is_refused() {
    let mut model = practice();
    let mut app = AppTester::new();
    let update = app.update(Event::Scan, &mut model).unwrap();
    let request = update
        .into_effects()
        .into_iter()
        .find_map(Effect::into_tag_reader)
        .unwrap();
    assert!(app.resolve(&request, TagReaderOutput::Written).is_ok());
    assert_eq!(
        app.resolve(&request, TagReaderOutput::Written).err(),
        Some(ResolveError::AlreadyResolved)
    );
}

#[test]
fn resolving_an_unknown_handle_is_refused() {
    let mut context = CapabilityContext::new();
    assert_eq!(
        context.resolve(0, TagReaderOutput::Written).err(),
        Some(ResolveError::UnknownHandle)
    );
}

#[test]
fn each_request_gets_its_own_handle() {
    let mut model = practice();
    let mut app = AppTester::new();
    let first = app.update(Event::Scan, &mut model).unwrap();
    let second = app.update(Event::Scan, &mut model).unwrap();
    let a = first.into_effects().into_iter().find_map(Effect::into_tag_reader).unwrap();
    let b = second.into_effects().into_iter().find_map(Effect::into_tag_reader).unwrap();
    assert_ne!(a.handle, b.handle);
    assert!(app.resolve(&b, TagReaderOutput::Written).is_ok());
    assert!(app.resolve(&a, TagReaderOutput::Written).is_ok());
}

#[test]
fn render_comes_last_and_once() {
    let mut model = practice();
    let mut app = AppTester::new();
    let update = app.update(Event::Scan, &mut model).unwrap();
    assert_eq!(update.effects.len(), 2);
    assert!(matches!(update.effects[0], Effect::TagReader(_)));
    assert!(matches!(update.effects[1], Effect::Render));

    let update = app.update(Event::SetMode(Mode::Practice), &mut model).unwrap();
    assert_eq!(update.effects.len(), 1);
    assert!(matches!(update.effects[0], Effect::Render));

    let mut model = Model::Configure { error: None };
    let update = app
        .update(Event::WriteTag("pig".to_string()), &mut model)
        .unwrap();
    assert_eq!(update.effects.len(), 2);
    let renders = update
        .effects
        .iter()
        .filter(|e| matches!(e, Effect::Render))
        .count();
    assert_eq!(renders, 1);
    assert!(matches!(update.effects[1], Effect::Render));
}

#[test]
fn write_failure_keeps_configure_mode() {
    let mut model = Model::Configure { error: None };
    let mut app = AppTester::new();
    let update = app
        .update(Event::WriteTag("badger".to_string()), &mut model)
        .unwrap();
    let request = update
        .into_effects()
        .into_iter()
        .find_map(Effect::into_tag_reader)
        .unwrap();
    let update = app
        .resolve(&request, TagReaderOutput::Error("timeout".to_string()))
        .unwrap();
    app.update(update.events[0].clone(), &mut model).unwrap();
    match model {
        Model::Configure { error } => {
            assert_eq!(error, Some("Error writing tag: timeout".to_string()))
        }
        other => panic!("expected configure mode, got {other:?}"),
    }
}

#[test]
fn write_request_carries_the_tag_url() {
    let mut model = Model::Configure { error: None };
    let mut app = AppTester::new();
    let update = app
        .update(Event::WriteTag("sloth".to_string()), &mut model)
        .unwrap();
    let request = update
        .into_effects()
        .into_iter()
        .find_map(Effect::into_tag_reader)
        .unwrap();
    assert_eq!(
        request.operation,
        TagReaderOperation::WriteUrl("https://animal-hunt.red-badger.com/animal/sloth".to_string())
    );
}

#[test]
fn practice_refuses_configure_events() {
    let mut app = AppTester::new();
    for event in [
        Event::WriteTag("badger".to_string()),
        Event::TagWritten(TagReaderOutput::Written),
        Event::ScannedUrl(TagReaderOutput::Written),
    ] {
        let mut model = practice();
        let r = app.update(event, &mut model);
        assert_eq!(
            r.err(),
            Some(InvalidEvent {
                mode: Mode::Practice
            })
        );
        assert_eq!(practice_view(&model), ("?".to_string(), None));
    }
}

#[test]
fn configure_refuses_practice_events() {
    let mut app = AppTester::new();
    for event in [
        Event::Scan,
        Event::ScannedUrl(TagReaderOutput::Url(BADGER_URL.to_string())),
        Event::TagWritten(TagReaderOutput::Url(BADGER_URL.to_string())),
    ] {
        let mut model = Model::Configure { error: None };
        let r = app.update(event, &mut model);
        assert_eq!(
            r.err(),
            Some(InvalidEvent {
                mode: Mode::Configure
            })
        );
        assert!(matches!(model, Model::Configure { error: None }));
    }
}

#[test]
fn core_runs_a_session() {
    let mut core = Core::new();
    let effects = core.process_event(Event::SetMode(Mode::Configure)).unwrap();
    assert_eq!(effects.len(), 1);
    match core.view() {
        ViewModel::Configure {
            known_animals,
            error,
        } => {
            assert_eq!(known_animals.len(), 10);
            assert_eq!(known_animals[6], ("zebra".to_string(), "🦓".to_string()));
            assert_eq!(error, None);
        }
        other => panic!("expected configure view, got {other:?}"),
    }

    let effects = core.process_event(Event::WriteTag("mouse".to_string())).unwrap();
    let request = effects.into_iter().find_map(Effect::into_tag_reader).unwrap();
    let effects = core.resolve(&request, TagReaderOutput::Written).unwrap();
    assert_eq!(effects.len(), 1);
    assert!(matches!(
        core.view(),
        ViewModel::Practice {
            error: None,
            ..
        }
    ));
    assert_eq!(
        core.resolve(&request, TagReaderOutput::Written).err(),
        Some(CoreError::Resolve(ResolveError::AlreadyResolved))
    );

    let effects = core.process_event(Event::Scan).unwrap();
    let request = effects.into_iter().find_map(Effect::into_tag_reader).unwrap();
    core.resolve(
        &request,
        TagReaderOutput::Url("https://animal-hunt.red-badger.com/animal/MOUSE".to_string()),
    )
    .unwrap();
    assert_eq!(
        core.view(),
        ViewModel::Practice {
            animal_emoji: "🐁".to_string(),
            error: None
        }
    );
}

#[test]
fn core_refuses_an_answer_that_does_not_fit_the_mode() {
    let mut core = Core::new();
    let effects = core.process_event(Event::Scan).unwrap();
    let request = effects.into_iter().find_map(Effect::into_tag_reader).unwrap();
    assert_eq!(
        core.resolve(&request, TagReaderOutput::Written).err(),
        Some(CoreError::Invalid(InvalidEvent {
            mode: Mode::Practice
        }))
    );
}

#[test]
fn valid_scan_selects_the_animal_in_the_model() {
    let (_, model) = scan_and_answer(TagReaderOutput::Url(BADGER_URL.to_string()));
    match &model {
        Model::Practice {
            animal: Some(animal),
            error: None,
        } => assert_eq!(animal.name(), "badger"),
        other => panic!("expected badger in practice mode, got {other:?}"),
    }
}
