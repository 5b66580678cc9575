use hayagriva_manager::fields::entry_fields;
use hayagriva_manager::{
    export_to_biblatex, Entry, EntryType, Library, PartialDate, Person, Publisher,
};

fn journal(title: &str, volume: &str) -> Entry {
    let mut p = Entry::new("nature".to_string(), EntryType::Periodical);
    p.title = Some(title.to_string());
    p.volume = Some(volume.to_string());
    p
}

fn with_parent(key: &str, kind: EntryType) -> Entry {
    let mut e = Entry::new(key.to_string(), kind);
    e.title = Some("On Things".to_string());
    e.parents.push(journal("Nature", "12"));
    e
}

#[test]
fn export_empty_library() {
    let lib = Library { entries: Vec::new() };
    assert_eq!(export_to_biblatex(&lib), "");
}

#[test]
fn export_minimal_entry() {
    let lib = Library { entries: vec![Entry::new("k".to_string(), EntryType::Book)] };
    assert_eq!(export_to_biblatex(&lib), "@book{k\n}\n\n");
}

#[test]
fn export_article_promotes_journal() {
    let lib = Library { entries: vec![with_parent("a1", EntryType::Article)] };
    let out = export_to_biblatex(&lib);
    assert!(out.contains("journaltitle = {Nature}"));
    assert!(out.contains("volume = {12}"));
    assert_eq!(
        out,
        "@article{a1,\n  title = {On Things},\n  journaltitle = {Nature},\n  volume = {12}\n}\n\n"
    );
}

#[test]
fn export_book_does_not_promote_journal() {
    let lib = Library { entries: vec![with_parent("b1", EntryType::Book)] };
    let out = export_to_biblatex(&lib);
    assert!(!out.contains("journaltitle"));
    assert!(!out.contains("volume"));
    assert_eq!(out, "@book{b1,\n  title = {On Things}\n}\n\n");
}

#[test]
fn export_article_without_parent() {
    let mut e = Entry::new("a2".to_string(), EntryType::Article);
    e.volume = Some("3".to_string());
    let lib = Library { entries: vec![e] };
    assert_eq!(export_to_biblatex(&lib), "@article{a2\n}\n\n");
}

#[test]
fn export_journal_number_only_first_parent() {
    let mut e = Entry::new("a3".to_string(), EntryType::Article);
    let mut p = Entry::new("j".to_string(), EntryType::Periodical);
    p.issue = Some("4".to_string());
    e.parents.push(p);
    e.parents.push(journal("Second", "9"));
    let lib = Library { entries: vec![e] };
    assert_eq!(export_to_biblatex(&lib), "@article{a3,\n  number = {4}\n}\n\n");
}

#[test]
fn export_all_fields_in_order() {
    let mut e = Entry::new("full".to_string(), EntryType::Chapter);
    e.title = Some("Cats & Dogs".to_string());
    e.authors = Some(vec![
        Person::Structured { last: Some("Doe".to_string()), first: Some("Jane".to_string()) },
        Person::Literal("R_Team".to_string()),
    ]);
    e.date = Some(PartialDate { year: 2021, month: Some(11), day: Some(2) });
    e.publisher = Some(Publisher {
        name: Some("Smith & Sons".to_string()),
        location: Some("London".to_string()),
    });
    e.url = Some("https://example.org/a_b?x=1&y=2".to_string());
    e.doi = Some("10.1000/xyz_1".to_string());
    e.page_range = Some("10-20".to_string());
    let lib = Library { entries: vec![e] };
    assert_eq!(
        export_to_biblatex(&lib),
        "@incollection{full,\n  title = {Cats \\& Dogs},\n  author = {Doe, Jane and R\\_Team},\n  \
         date = {2021-11-02},\n  publisher = {Smith \\& Sons, London},\n  \
         url = {https://example.org/a_b?x=1&y=2},\n  doi = {10.1000/xyz_1},\n  pages = {10-20}\n}\n\n"
    );
}

#[test]
fn export_omits_absent_values() {
    let mut e = Entry::new("gaps".to_string(), EntryType::Other("web".to_string()));
    e.authors = Some(Vec::new());
    e.date = Some(PartialDate { year: 2020, month: None, day: Some(3) });
    e.publisher = Some(Publisher { name: None, location: Some("Paris".to_string()) });
    let lib = Library { entries: vec![e] };
    assert_eq!(export_to_biblatex(&lib), "@misc{gaps\n}\n\n");
}

#[test]
fn export_publisher_name_only() {
    let mut e = Entry::new("p".to_string(), EntryType::Report);
    e.publisher = Some(Publisher { name: Some("ACME".to_string()), location: None });
    let lib = Library { entries: vec![e] };
    assert_eq!(export_to_biblatex(&lib), "@report{p,\n  publisher = {ACME}\n}\n\n");
}

#[test]
fn export_keeps_library_order() {
    let lib = Library {
        entries: vec![
            Entry::new("z".to_string(), EntryType::Thesis),
            Entry::new("a".to_string(), EntryType::Proceedings),
            Entry::new("m".to_string(), EntryType::Unpublished),
        ],
    };
    assert_eq!(
        export_to_biblatex(&lib),
        "@thesis{z\n}\n\n@proceedings{a\n}\n\n@unpublished{m\n}\n\n"
    );
}

#[test]
fn export_is_deterministic() {
    let lib = Library {
        entries: vec![with_parent("a1", EntryType::Article), with_parent("b1", EntryType::Book)],
    };
    assert_eq!(export_to_biblatex(&lib), export_to_biblatex(&lib));
}

#[test]
fn fields_of_article_with_journal() {
    let e = with_parent("a1", EntryType::Article);
    let fs = entry_fields(&e);
    let pairs: Vec<(String, String)> =
        fs.into_iter().map(|f| (f.name, f.value)).collect();
    assert_eq!(
        pairs,
        vec![
            ("title".to_string(), "On Things".to_string()),
            ("journaltitle".to_string(), "Nature".to_string()),
            ("volume".to_string(), "12".to_string()),
        ]
    );
}

#[test]
fn export_omits_empty_publisher() {
    let mut e = Entry::new("ep".to_string(), EntryType::Book);
    e.publisher = Some(Publisher { name: Some(String::new()), location: None });
    let lib = Library { entries: vec![e] };
    assert_eq!(export_to_biblatex(&lib), "@book{ep\n}\n\n");
}
