use file_dialog::error::{Location, ValidationError};
use file_dialog::mode::{Mode, ResultKind};
use file_dialog::request::{FilterGroup, HostAnswer, Probe, RawParameters};
use file_dialog::validate::{
    probe_for, resolve_base_directory, resolve_filters, resolve_title, validate,
};
use file_dialog::value::RawValue;

fn text(s: &str) -> RawValue {
    RawValue::Text(s.to_string())
}

fn text_list(items: &[&str]) -> RawValue {
    RawValue::List(items.iter().map(|s| text(s)).collect())
}

fn record(entries: Vec<(&str, RawValue)>) -> RawValue {
    RawValue::Record(entries.into_iter().map(|(k, v)| (k.to_string(), v)).collect())
}

fn plain() -> RawParameters {
    RawParameters {
        head: Location { start: 0, end: 11 },
        multiple: false,
        dir_only: false,
        base_dir: None,
        title: None,
        filter: None,
    }
}

fn cwd(dir: &str) -> HostAnswer {
    HostAnswer::CurrentDirectory(dir.to_string())
}

#[test]
fn flags_pick_the_mode() {
    assert_eq!(Mode::from_flags(false, false), Ok(Mode::SingleFile));
    assert_eq!(Mode::from_flags(false, true), Ok(Mode::MultiFile));
    assert_eq!(Mode::from_flags(true, false), Ok(Mode::SingleDir));
    assert_eq!(Mode::from_flags(true, true), Err(ValidationError::ConflictingOptions));
}

#[test]
fn modes_lead_to_their_kind_of_result() {
    assert_eq!(Mode::SingleFile.result_kind(), ResultKind::Text);
    assert_eq!(Mode::SingleDir.result_kind(), ResultKind::Text);
    assert_eq!(Mode::MultiFile.result_kind(), ResultKind::TextList);
}

#[test]
fn probe_asks_about_a_given_path() {
    let params = RawParameters { base_dir: Some(text("/srv/data")), ..plain() };
    assert_eq!(probe_for(&params), Ok(Probe::Directory("/srv/data".to_string())));
}

#[test]
fn probe_asks_for_the_working_directory_when_no_path_is_given() {
    assert_eq!(probe_for(&plain()), Ok(Probe::CurrentDirectory));
}

#[test]
fn probe_turns_down_a_base_directory_that_is_not_text() {
    for value in [RawValue::Other, text_list(&["/tmp"]), record(vec![("dir", text("/tmp"))])] {
        let params = RawParameters { base_dir: Some(value), ..plain() };
        assert_eq!(probe_for(&params), Err(ValidationError::InvalidBaseDirectory));
    }
}

#[test]
fn unset_base_directory_resolves_to_the_working_directory() {
    assert_eq!(resolve_base_directory(&None, &cwd("/home/u")), Ok("/home/u".to_string()));
    let request = validate(&plain(), &cwd("/home/u")).unwrap();
    assert_eq!(request.base_directory(), "/home/u");
}

#[test]
fn existing_base_directory_is_taken_as_given() {
    let given = Some(text("/srv/data"));
    assert_eq!(
        resolve_base_directory(&given, &HostAnswer::Directory(true)),
        Ok("/srv/data".to_string())
    );
}

#[test]
fn missing_base_directory_is_turned_down() {
    let given = Some(text("/no/such/place"));
    assert_eq!(
        resolve_base_directory(&given, &HostAnswer::Directory(false)),
        Err(ValidationError::InvalidBaseDirectory)
    );
    let params = RawParameters {
        base_dir: given,
        title: Some(RawValue::Other),
        filter: Some(RawValue::Other),
        multiple: true,
        dir_only: true,
        ..plain()
    };
    assert_eq!(
        validate(&params, &HostAnswer::Directory(false)),
        Err(ValidationError::InvalidBaseDirectory)
    );
}

#[test]
fn base_directory_that_is_not_text_is_turned_down_whatever_the_host_says() {
    for answer in [HostAnswer::Directory(true), HostAnswer::Directory(false), cwd("/home/u")] {
        assert_eq!(
            resolve_base_directory(&Some(RawValue::Other), &answer),
            Err(ValidationError::InvalidBaseDirectory)
        );
    }
}

#[test]
fn answer_to_another_question_resolves_nothing() {
    assert_eq!(
        resolve_base_directory(&Some(text("/srv/data")), &cwd("/home/u")),
        Err(ValidationError::InvalidBaseDirectory)
    );
    assert_eq!(
        resolve_base_directory(&None, &HostAnswer::Directory(true)),
        Err(ValidationError::InvalidBaseDirectory)
    );
}

#[test]
fn title_passes_through_when_text_or_absent() {
    assert_eq!(resolve_title(&None), Ok(None));
    assert_eq!(resolve_title(&Some(text("Pick one"))), Ok(Some("Pick one".to_string())));
    assert_eq!(resolve_title(&Some(text(""))), Ok(Some(String::new())));
}

#[test]
fn title_of_another_type_is_turned_down() {
    for value in [RawValue::Other, text_list(&["a"]), record(vec![])] {
        assert_eq!(resolve_title(&Some(value)), Err(ValidationError::InvalidTitle));
    }
    let params = RawParameters { title: Some(RawValue::Other), ..plain() };
    assert_eq!(validate(&params, &cwd("/home/u")), Err(ValidationError::InvalidTitle));
}

#[test]
fn absent_filter_gives_no_groups() {
    assert_eq!(resolve_filters(&None), Ok(None));
}

#[test]
fn empty_record_gives_an_empty_list_of_groups() {
    assert_eq!(resolve_filters(&Some(record(vec![]))), Ok(Some(vec![])));
}

#[test]
fn filter_groups_keep_the_order_of_the_keys() {
    let filter = record(vec![
        ("Normal", text_list(&["png", "jpg"])),
        ("Weird", text_list(&["webp"])),
        ("All", text_list(&["*"])),
        ("Archives", text_list(&[".zip", "tar.gz"])),
    ]);
    let groups = resolve_filters(&Some(filter)).unwrap().unwrap();
    let labels: Vec<&str> = groups.iter().map(|g| g.label.as_str()).collect();
    assert_eq!(labels, vec!["Normal", "Weird", "All", "Archives"]);
    assert_eq!(groups[0].extensions, vec!["png", "jpg"]);
    assert_eq!(groups[1].extensions, vec!["webp"]);
    assert_eq!(groups[2].extensions, vec!["*"]);
    assert_eq!(groups[3].extensions, vec![".zip", "tar.gz"]);
}

#[test]
fn extensions_are_taken_verbatim() {
    let filter = record(vec![("Odd", text_list(&["", ".", "..x", " png "]))]);
    assert_eq!(
        resolve_filters(&Some(filter)),
        Ok(Some(vec![FilterGroup {
            label: "Odd".to_string(),
            extensions: vec![
                String::new(),
                ".".to_string(),
                "..x".to_string(),
                " png ".to_string()
            ],
        }]))
    );
}

#[test]
fn group_without_extensions_is_accepted() {
    let filter = record(vec![("None", text_list(&[]))]);
    assert_eq!(
        resolve_filters(&Some(filter)),
        Ok(Some(vec![FilterGroup { label: "None".to_string(), extensions: vec![] }]))
    );
}

#[test]
fn repeated_labels_are_kept_apart() {
    let filter = record(vec![("Same", text_list(&["a"])), ("Same", text_list(&["b"]))]);
    let groups = resolve_filters(&Some(filter)).unwrap().unwrap();
    assert_eq!(groups.len(), 2);
    assert_eq!(groups[0].extensions, vec!["a"]);
    assert_eq!(groups[1].extensions, vec!["b"]);
}

#[test]
fn filter_that_is_no_record_is_turned_down() {
    for value in [RawValue::Other, text("png"), text_list(&["png", "jpg"])] {
        assert_eq!(resolve_filters(&Some(value)), Err(ValidationError::InvalidFilter));
    }
}

#[test]
fn filter_entry_that_is_no_list_is_turned_down() {
    for value in [RawValue::Other, text("png"), record(vec![("png", text_list(&["png"]))])] {
        let filter = record(vec![("Fine", text_list(&["png"])), ("Bad", value)]);
        assert_eq!(resolve_filters(&Some(filter)), Err(ValidationError::InvalidFilter));
    }
}

#[test]
fn filter_list_with_an_item_that_is_no_text_is_turned_down() {
    let weird = RawValue::List(vec![text("webp"), RawValue::Other]);
    let filter = record(vec![("Weird", weird)]);
    assert_eq!(resolve_filters(&Some(filter)), Err(ValidationError::InvalidFilter));

    let nested = RawValue::List(vec![text_list(&["webp"])]);
    let filter = record(vec![("Nested", nested)]);
    assert_eq!(resolve_filters(&Some(filter)), Err(ValidationError::InvalidFilter));
}

#[test]
fn one_bad_entry_fails_the_whole_filter() {
    let filter = record(vec![
        ("First", text_list(&["a"])),
        ("Second", text_list(&["b"])),
        ("Third", RawValue::List(vec![RawValue::Other])),
    ]);
    let params = RawParameters { filter: Some(filter), ..plain() };
    assert_eq!(validate(&params, &cwd("/home/u")), Err(ValidationError::InvalidFilter));
}

#[test]
fn as_text_list_tells_lists_of_texts_from_the_rest() {
    assert_eq!(text_list(&["a", "b"]).as_text_list(), Some(vec!["a".to_string(), "b".to_string()]));
    assert_eq!(text_list(&[]).as_text_list(), Some(vec![]));
    assert_eq!(RawValue::List(vec![text("a"), RawValue::Other]).as_text_list(), None);
    assert_eq!(text("a").as_text_list(), None);
    assert_eq!(record(vec![]).as_text_list(), None);
    assert_eq!(RawValue::Other.as_text_list(), None);
}

#[test]
fn both_flags_together_are_a_conflict() {
    let filter = record(vec![("Images", text_list(&["png"]))]);
    let variations = [
        RawParameters { multiple: true, dir_only: true, ..plain() },
        RawParameters { multiple: true, dir_only: true, title: Some(text("Pick")), ..plain() },
        RawParameters { multiple: true, dir_only: true, filter: Some(filter), ..plain() },
    ];
    for params in variations {
        assert_eq!(validate(&params, &cwd("/home/u")), Err(ValidationError::ConflictingOptions));
    }
    let params = RawParameters {
        multiple: true,
        dir_only: true,
        base_dir: Some(text("/srv/data")),
        ..plain()
    };
    assert_eq!(
        validate(&params, &HostAnswer::Directory(true)),
        Err(ValidationError::ConflictingOptions)
    );
}

#[test]
fn errors_come_in_the_order_directory_title_filter_flags() {
    let all_wrong = RawParameters {
        multiple: true,
        dir_only: true,
        base_dir: Some(RawValue::Other),
        title: Some(RawValue::Other),
        filter: Some(RawValue::Other),
        ..plain()
    };
    assert_eq!(
        validate(&all_wrong, &HostAnswer::Directory(true)),
        Err(ValidationError::InvalidBaseDirectory)
    );
    let directory_fine = RawParameters { base_dir: None, ..all_wrong };
    assert_eq!(validate(&directory_fine, &cwd("/")), Err(ValidationError::InvalidTitle));
    let title_fine = RawParameters { title: None, ..directory_fine };
    assert_eq!(validate(&title_fine, &cwd("/")), Err(ValidationError::InvalidFilter));
    let filter_fine = RawParameters { filter: None, ..title_fine };
    assert_eq!(validate(&filter_fine, &cwd("/")), Err(ValidationError::ConflictingOptions));
    let flags_fine = RawParameters { multiple: false, ..filter_fine };
    assert!(validate(&flags_fine, &cwd("/")).is_ok());
}

#[test]
fn valid_parameters_give_the_request() {
    let params = RawParameters {
        multiple: true,
        dir_only: false,
        base_dir: Some(text("/home/u/Images")),
        title: Some(text("Pick images")),
        filter: Some(record(vec![
            ("Normal", text_list(&["png", "jpg"])),
            ("Weird", text_list(&["webp"])),
        ])),
        ..plain()
    };
    let request = validate(&params, &HostAnswer::Directory(true)).unwrap();
    assert_eq!(request.mode(), Mode::MultiFile);
    assert_eq!(request.base_directory(), "/home/u/Images");
    assert_eq!(request.title(), &Some("Pick images".to_string()));
    assert_eq!(
        request.filters(),
        &Some(vec![
            FilterGroup {
                label: "Normal".to_string(),
                extensions: vec!["png".to_string(), "jpg".to_string()],
            },
            FilterGroup { label: "Weird".to_string(), extensions: vec!["webp".to_string()] },
        ])
    );
}

#[test]
fn directory_flag_alone_asks_for_a_directory() {
    let params = RawParameters { dir_only: true, ..plain() };
    let request = validate(&params, &cwd("/home/u")).unwrap();
    assert_eq!(request.mode(), Mode::SingleDir);
    assert_eq!(request.base_directory(), "/home/u");
    assert_eq!(request.title(), &None);
    assert_eq!(request.filters(), &None);
}

#[test]
fn equal_parameters_give_equal_requests() {
    let params = RawParameters { title: Some(text("Pick")), ..plain() };
    assert_eq!(validate(&params, &cwd("/home/u")), validate(&params, &cwd("/home/u")));
    assert_ne!(validate(&params, &cwd("/home/u")), validate(&params, &cwd("/home/v")));
}
