use monea::args::{CommonArgs, NewTemplateArgs};
use monea::cli::TemplateCommands;
use monea::commands::{handle_template_commands, TemplateAction};
use monea::config::Config;
use monea::options::{
    DataAvailabilityOptions, ExecutionOptions, SequencerOptions, SettlementOptions,
};
use monea::store::{
    config_from_record, delete_selection, list_configs, DeleteSelection, delete_template, list_templates, load_template, record_file_name,
    select_template, template_names, template_record, template_stem, DeleteOutcome, StoreError,
    TemplateRecord,
};

fn entries(v: Vec<&str>) -> Vec<String> {
    v.into_iter().map(|s| s.to_string()).collect()
}

#[test]
fn put_then_get_round_trips_under_the_key() {
    let c = Config {
        template_name: Some("other".to_string()),
        execution: ExecutionOptions::PolygonCDK,
        settlement: SettlementOptions::EthereumMainnet,
        sequencer: SequencerOptions::Espresso,
        data_availability: DataAvailabilityOptions::Eigen,
    };
    let rec = template_record("mine", &c);
    assert_eq!(rec.template_name, Some("mine".to_string()));
    assert_eq!(rec.execution, "PolygonCDK");
    assert_eq!(rec.settlement, "EthereumMainnet");
    assert_eq!(rec.sequencer, "Espresso");
    assert_eq!(rec.data_availability, "Eigen");
    let back = load_template("mine", Some(&rec)).unwrap();
    assert_eq!(back.template_name, Some("mine".to_string()));
    assert_eq!(back.execution, ExecutionOptions::PolygonCDK);
    assert_eq!(back.settlement, SettlementOptions::EthereumMainnet);
    assert_eq!(back.sequencer, SequencerOptions::Espresso);
    assert_eq!(back.data_availability, DataAvailabilityOptions::Eigen);
}

#[test]
fn key_wins_over_embedded_name() {
    let rec = TemplateRecord {
        template_name: None,
        execution: "Polaris".to_string(),
        settlement: "Base".to_string(),
        sequencer: "Default".to_string(),
        data_availability: "Avail".to_string(),
    };
    let c = config_from_record("keyed", &rec).unwrap();
    assert_eq!(c.template_name, Some("keyed".to_string()));
    assert_eq!(c.execution, ExecutionOptions::Polaris);
    assert_eq!(c.settlement, SettlementOptions::Base);
    assert_eq!(c.data_availability, DataAvailabilityOptions::Avail);
}

#[test]
fn unknown_axis_value_is_invalid_record() {
    let rec = TemplateRecord {
        template_name: Some("bad".to_string()),
        execution: "OpStack".to_string(),
        settlement: "Mars".to_string(),
        sequencer: "Default".to_string(),
        data_availability: "Default".to_string(),
    };
    match config_from_record("bad", &rec) {
        Err(e) => {
            assert!(matches!(&e, StoreError::InvalidRecord { name, field, value }
                if name == "bad" && field == "settlement" && value == "Mars"));
            assert_eq!(e.message(), "Failed to parse template: settlement: unknown value 'Mars'");
            assert!(e.message().starts_with("Failed to parse template: "));
        }
        Ok(_) => panic!("expected an invalid record"),
    }
}

#[test]
fn delete_then_get_is_not_found() {
    match delete_template("old", true) {
        DeleteOutcome::Remove { name, file_name } => {
            assert_eq!(name, "old");
            assert_eq!(file_name, "old.yaml");
        }
        DeleteOutcome::Missing { .. } => panic!("expected removal"),
    }
    assert_eq!(delete_template("old", true).message(), "Deleted template 'old'");
    assert!(matches!(load_template("old", None), Err(StoreError::NotFound { name }) if name == "old"));
}

#[test]
fn delete_of_unknown_template_reports_it() {
    let d = delete_template("ghost", false);
    assert!(matches!(&d, DeleteOutcome::Missing { name } if name == "ghost"));
    assert_eq!(d.message(), "No template named 'ghost' found");
}

#[test]
fn list_of_missing_directory() {
    let r = list_templates(false, &entries(vec!["a.yaml"]));
    match r {
        Err(e) => {
            assert!(matches!(e, StoreError::DirectoryMissing));
            assert_eq!(e.message(), "No templates directory found.");
        }
        Ok(_) => panic!("expected a missing directory"),
    }
}

#[test]
fn list_of_empty_directory_is_empty() {
    assert_eq!(list_templates(true, &Vec::new()).unwrap(), Vec::<String>::new());
    assert_eq!(
        list_templates(true, &entries(vec!["notes.txt", ".yaml", "x.yml"])).unwrap(),
        Vec::<String>::new()
    );
}

#[test]
fn list_keeps_entry_order() {
    let names = list_templates(true, &entries(vec!["b.yaml", "readme.md", "a.yaml", "c.d.yaml"]))
        .unwrap();
    assert_eq!(names, vec!["b".to_string(), "a".to_string(), "c.d".to_string()]);
}

#[test]
fn stems_follow_the_extension() {
    assert_eq!(template_stem("default.yaml"), Some("default".to_string()));
    assert_eq!(template_stem("..yaml"), Some(".".to_string()));
    assert_eq!(template_stem(".yaml"), None);
    assert_eq!(template_stem("default.YAML"), None);
    assert_eq!(template_stem("default"), None);
    assert_eq!(template_names(&entries(vec!["x.yaml", "y"])), vec!["x".to_string()]);
    assert_eq!(record_file_name("prod"), "prod.yaml");
}

#[test]
fn select_distinguishes_missing_and_empty() {
    assert!(matches!(select_template(false, &Vec::new()), Err(StoreError::DirectoryMissing)));
    match select_template(true, &entries(vec!["a.txt"])) {
        Err(e) => {
            assert!(matches!(e, StoreError::NoTemplates));
            assert_eq!(e.message(), "No templates found.");
        }
        Ok(_) => panic!("expected no templates"),
    }
    assert_eq!(
        select_template(true, &entries(vec!["one.yaml", "two.yaml"])).unwrap(),
        vec!["one".to_string(), "two".to_string()]
    );
}

#[test]
fn new_template_without_overrides_has_defaults() {
    let cmd = TemplateCommands::New(NewTemplateArgs {
        name: "default".to_string(),
        common: CommonArgs::none(),
    });
    match handle_template_commands(&cmd) {
        TemplateAction::Create(w) => {
            assert_eq!(w.file_name, "default.yaml");
            assert_eq!(w.config.template_name, Some("default".to_string()));
            assert_eq!(w.config.execution, ExecutionOptions::OpStack);
            assert_eq!(w.config.settlement, SettlementOptions::Local);
            assert_eq!(w.config.sequencer, SequencerOptions::Default);
            assert_eq!(w.config.data_availability, DataAvailabilityOptions::Default);
            assert_eq!(w.record.execution, "OpStack");
            assert_eq!(w.record.settlement, "Local");
            assert_eq!(w.record.sequencer, "Default");
            assert_eq!(w.record.data_availability, "Default");
            assert_eq!(w.record.template_name, Some("default".to_string()));
        }
        _ => panic!("expected a creation"),
    }
}

#[test]
fn new_template_takes_given_axes() {
    let mut common = CommonArgs::none();
    common.sequencer = Some(SequencerOptions::Espresso);
    let cmd = TemplateCommands::New(NewTemplateArgs { name: "seq".to_string(), common });
    match handle_template_commands(&cmd) {
        TemplateAction::Create(w) => {
            assert_eq!(w.config.sequencer, SequencerOptions::Espresso);
            assert_eq!(w.config.execution, ExecutionOptions::OpStack);
            assert_eq!(w.record.sequencer, "Espresso");
        }
        _ => panic!("expected a creation"),
    }
}

#[test]
fn template_commands_dispatch() {
    assert!(matches!(handle_template_commands(&TemplateCommands::List), TemplateAction::List));
    let d = TemplateCommands::Delete(monea::args::DeleteTemplateArgs { name: None });
    assert!(matches!(handle_template_commands(&d), TemplateAction::Delete(None)));
}

#[test]
fn axis_names_parse_back() {
    for v in ExecutionOptions::all() {
        assert_eq!(ExecutionOptions::from_name(&v.name()), Some(v));
    }
    for v in SettlementOptions::all() {
        assert_eq!(SettlementOptions::from_name(&v.name()), Some(v));
    }
    for v in SequencerOptions::all() {
        assert_eq!(SequencerOptions::from_name(&v.name()), Some(v));
    }
    for v in DataAvailabilityOptions::all() {
        assert_eq!(DataAvailabilityOptions::from_name(&v.name()), Some(v));
    }
    assert_eq!(ExecutionOptions::all().len(), 5);
    assert_eq!(SettlementOptions::all().len(), 4);
    assert_eq!(SequencerOptions::all().len(), 2);
    assert_eq!(DataAvailabilityOptions::all().len(), 4);
    assert_eq!(ExecutionOptions::from_name("opstack"), None);
    assert_eq!(SettlementOptions::from_name("Sepolia"), Some(SettlementOptions::Sepolia));
}

fn record(e: &str, s: &str, q: &str, d: &str) -> TemplateRecord {
    TemplateRecord {
        template_name: None,
        execution: e.to_string(),
        settlement: s.to_string(),
        sequencer: q.to_string(),
        data_availability: d.to_string(),
    }
}

#[test]
fn first_unknown_field_is_reported() {
    let r = config_from_record("t", &record("Foo", "Bar", "Default", "Default"));
    match r {
        Err(e) => assert_eq!(e.message(), "Failed to parse template: execution: unknown value 'Foo'"),
        Ok(_) => panic!("expected an invalid record"),
    }
    let r = load_template("t", Some(&record("OpStack", "Local", "Default", "Nowhere")));
    match r {
        Err(e) => assert_eq!(
            e.message(),
            "Failed to parse template: data_availability: unknown value 'Nowhere'"
        ),
        Ok(_) => panic!("expected an invalid record"),
    }
    let r = load_template("t", Some(&record("OpStack", "Local", "espresso", "Default")));
    assert!(matches!(r, Err(StoreError::InvalidRecord { field, .. }) if field == "sequencer"));
}

#[test]
fn list_configs_reads_every_record_in_order() {
    let entries = vec![
        ("b".to_string(), record("Rollkit", "Base", "Espresso", "Celestia")),
        ("a".to_string(), record("OpStack", "Local", "Default", "Default")),
    ];
    let rows = list_configs(&entries).unwrap();
    assert_eq!(rows.len(), 2);
    assert_eq!(rows[0].0, "b");
    assert_eq!(rows[0].1.template_name, Some("b".to_string()));
    assert_eq!(rows[0].1.execution, ExecutionOptions::Rollkit);
    assert_eq!(rows[0].1.data_availability, DataAvailabilityOptions::Celestia);
    assert_eq!(rows[1].0, "a");
    assert_eq!(rows[1].1.settlement, SettlementOptions::Local);
    assert_eq!(list_configs(&Vec::new()).unwrap().len(), 0);
}

#[test]
fn list_configs_fails_on_first_bad_record() {
    let entries = vec![
        ("good".to_string(), record("OpStack", "Local", "Default", "Default")),
        ("bad1".to_string(), record("OpStack", "Moon", "Default", "Default")),
        ("bad2".to_string(), record("Nope", "Local", "Default", "Default")),
    ];
    match list_configs(&entries) {
        Err(e) => {
            assert!(matches!(&e, StoreError::InvalidRecord { name, .. } if name == "bad1"));
            assert_eq!(e.message(), "Failed to parse template: settlement: unknown value 'Moon'");
        }
        Ok(_) => panic!("expected the listing to fail"),
    }
}

#[test]
fn delete_without_name_on_missing_or_empty_store() {
    match delete_selection(&None, false, &Vec::new()) {
        DeleteSelection::Nothing(e) => {
            assert!(matches!(e, StoreError::DirectoryMissing));
            assert_eq!(e.message(), "No templates directory found.");
        }
        _ => panic!("expected nothing to delete"),
    }
    match delete_selection(&None, true, &entries(vec!["notes.txt"])) {
        DeleteSelection::Nothing(e) => {
            assert!(matches!(e, StoreError::NoTemplates));
            assert_eq!(e.message(), "No templates found.");
        }
        _ => panic!("expected nothing to delete"),
    }
}

#[test]
fn delete_selection_offers_or_takes_the_name() {
    match delete_selection(&None, true, &entries(vec!["x.yaml", "y.txt", "z.yaml"])) {
        DeleteSelection::Offer(v) => assert_eq!(v, vec!["x".to_string(), "z".to_string()]),
        _ => panic!("expected names to offer"),
    }
    match delete_selection(&Some("ghost".to_string()), false, &Vec::new()) {
        DeleteSelection::Named(n) => assert_eq!(n, "ghost"),
        _ => panic!("expected the given name"),
    }
}

#[test]
fn command_line_names_accept_kebab_case() {
    assert_eq!(ExecutionOptions::from_cli_name("op-stack"), Some(ExecutionOptions::OpStack));
    assert_eq!(ExecutionOptions::from_cli_name("polygon-cdk"), Some(ExecutionOptions::PolygonCDK));
    assert_eq!(ExecutionOptions::from_cli_name("OpStack"), Some(ExecutionOptions::OpStack));
    assert_eq!(SettlementOptions::from_cli_name("sepolia"), Some(SettlementOptions::Sepolia));
    assert_eq!(SettlementOptions::from_cli_name("Sepolia"), Some(SettlementOptions::Sepolia));
    assert_eq!(
        SettlementOptions::from_cli_name("ethereum-mainnet"),
        Some(SettlementOptions::EthereumMainnet)
    );
    assert_eq!(SequencerOptions::from_cli_name("espresso"), Some(SequencerOptions::Espresso));
    assert_eq!(
        DataAvailabilityOptions::from_cli_name("celestia"),
        Some(DataAvailabilityOptions::Celestia)
    );
    assert_eq!(ExecutionOptions::from_cli_name("opstack"), None);
    assert_eq!(DataAvailabilityOptions::from_cli_name("Solana"), None);
}
