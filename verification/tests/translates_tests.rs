use rs_postgres::translates::{Language, Translator};

#[test]
fn english_strings() {
    let t = Translator::new(Language::English);
    assert_eq!(t.add_server(), "Add server");
    assert_eq!(t.save(), "Save");
    assert_eq!(t.yes(), "Yes");
    assert_eq!(t.no(), "No");
    assert_eq!(t.running(), "Running...");
    assert_eq!(t.error(), "Error!");
    assert_eq!(t.export_to_csv(), "Export to CSV");
    assert_eq!(t.no_data_returned(), "No data returned");
}

#[test]
fn validation_messages_carry_the_dash_prefix() {
    let t = Translator::new(Language::English);
    assert_eq!(t.name_is_required(), "- Name is required");
    assert_eq!(t.incorrect_port_value(), "- Incorrect port value");
    assert_eq!(
        t.name_must_be_less_than_32_characters(),
        "- Name must be less than 32 characters"
    );
}

#[test]
fn formatted_messages() {
    let t = Translator::new(Language::English);
    assert_eq!(t.version("1.2.3"), "Version 1.2.3");
    assert_eq!(t.time(17), "Time: 17 ms");
    assert_eq!(t.rows(251), "Rows: 251");
}

#[test]
fn russian_is_distinct_from_english() {
    let en = Translator::new(Language::English);
    let ru = Translator::new(Language::Russian);
    assert_ne!(en.add_server(), ru.add_server());
    assert_ne!(en.time(5), ru.time(5));
    assert_eq!(en.language, Language::English);
    assert_eq!(ru.language, Language::Russian);
}
