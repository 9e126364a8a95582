use spdx_guide::model::SpdxDocument;
use spdx_guide::ranking::{Commit, CommitTime};
use spdx_guide::vcs::{User, VcsInfo};
use spdx_guide::wizard::{check_license, Answer, Prompt, Role, SetupData, SetupStep, Wizard};

fn setup(vcs: Option<VcsInfo>) -> SetupData {
    SetupData {
        vcs,
        dir_name: "demo".to_string(),
        tool_name: "spdx-guide".to_string(),
        tool_version: "0.1.0".to_string(),
    }
}

fn repo() -> VcsInfo {
    let author = User { name: "Ann".to_string(), email: Some("a@x".to_string()) };
    VcsInfo::from_parts(
        "git",
        None,
        None,
        vec!["https://example.com/repo.git".to_string()],
        None,
        None,
        None,
        &vec![Commit { author, time: CommitTime { seconds: 1, offset_minutes: 0 } }],
    )
}

fn with_head_ref(mut v: VcsInfo, r: &str) -> VcsInfo {
    v.head_refs.push(r.to_string());
    v
}

fn values(d: &SpdxDocument, pkg: bool, tag: &str) -> Vec<String> {
    let s = if pkg { &d.package_section } else { &d.document_section };
    s.find(tag).into_iter().map(|v| v.to_string()).collect()
}

/// Runs up to the package version question with `demo` as the name.
fn to_version(vcs: Option<VcsInfo>) -> Wizard {
    let mut w = Wizard::new(setup(vcs));
    w.advance(Answer::Done);
    w.advance(Answer::Escaped);
    w.advance(Answer::Confirmed(false));
    assert!(matches!(w.step, SetupStep::PackageName));
    w.advance(Answer::Entered("demo".to_string()));
    assert!(matches!(w.step, SetupStep::PackageVersion));
    w
}

fn input_default(p: &Prompt) -> Option<String> {
    match p {
        Prompt::Input { default, .. } => default.clone(),
        _ => panic!("not a text prompt"),
    }
}

/// Runs up to the supplier question.
fn to_supplier(vcs: Option<VcsInfo>) -> Wizard {
    let mut w = to_version(vcs);
    w.advance(Answer::Entered(String::new()));
    w.advance(Answer::Entered("demo".to_string()));
    w.advance(Answer::Done);
    assert!(matches!(w.step, SetupStep::Author(Role::Supplier)));
    w
}

#[test]
fn fixed_properties_open_the_document() {
    let mut w = Wizard::new(setup(None));
    assert!(matches!(w.prompt(), Prompt::Proceed));
    w.advance(Answer::Done);
    assert_eq!(values(&w.doc, false, "SPDXVersion"), vec!["SPDX-2.3"]);
    assert_eq!(values(&w.doc, false, "DataLicense"), vec!["CC0-1.0"]);
    assert_eq!(values(&w.doc, false, "LicenseListVersion"), vec!["3.18"]);
    assert_eq!(values(&w.doc, false, "Creator"), vec!["Tool: spdx-guide-0.1.0"]);
    match w.prompt() {
        Prompt::SelectOrInput { items, .. } => {
            assert_eq!(items.len(), 2);
            assert!(items.iter().all(|i| i.ends_with(" ()")));
        }
        _ => panic!("expected a choice"),
    }
}

#[test]
fn chosen_creator_person_is_recorded() {
    let mut w = Wizard::new(setup(None));
    w.advance(Answer::Done);
    w.advance(Answer::Entered("Ann".to_string()));
    assert_eq!(values(&w.doc, false, "Creator")[1], "Person: Ann");
    assert_eq!(w.creators, vec!["Ann"]);
    w.advance(Answer::Confirmed(true));
    w.advance(Answer::Entered("ACME".to_string()));
    assert_eq!(values(&w.doc, false, "Creator")[2], "Organization: ACME");
    assert_eq!(w.creators, vec!["Ann", "ACME"]);
    assert!(matches!(w.step, SetupStep::PackageName));
}

#[test]
fn package_name_writes_id_and_name() {
    let w = to_version(None);
    assert_eq!(values(&w.doc, true, "SPDXID"), vec!["SPDXRef-Package-demo"]);
    assert_eq!(values(&w.doc, true, "PackageName"), vec!["demo"]);
}

#[test]
fn document_name_defaults_to_package_name() {
    let mut w = to_version(None);
    w.advance(Answer::Entered(String::new()));
    assert!(values(&w.doc, true, "PackageVersion").is_empty());
    assert_eq!(input_default(&w.prompt()), Some("demo".to_string()));
}

#[test]
fn document_name_default_includes_version() {
    let mut w = to_version(None);
    w.advance(Answer::Entered("1.0".to_string()));
    assert_eq!(values(&w.doc, true, "PackageVersion"), vec!["1.0"]);
    assert_eq!(input_default(&w.prompt()), Some("demo-1.0".to_string()));
}

#[test]
fn version_prompt_starts_with_latest_tag() {
    let mut v = repo();
    v.latest_version = Some("2.0".to_string());
    let w = to_version(Some(v));
    match w.prompt() {
        Prompt::Input { initial, .. } => assert_eq!(initial, Some("2.0".to_string())),
        _ => panic!("not a text prompt"),
    }
}

#[test]
fn namespace_holds_document_name_and_random_id() {
    let w = to_supplier(None);
    let ns = values(&w.doc, false, "DocumentNamespace");
    assert_eq!(ns.len(), 1);
    let prefix = "https://spdx.org/spdxdocs/demo-";
    assert!(ns[0].starts_with(prefix));
    let id = &ns[0][prefix.len()..];
    assert_eq!(id.len(), 36);
    assert_eq!(id.matches('-').count(), 4);
}

#[test]
fn supplier_no_assertion_skips_person_or_org() {
    let mut w = to_supplier(Some(repo()));
    let n = match w.prompt() {
        Prompt::SelectOrInput { items, extra, .. } => {
            assert_eq!(items, vec!["Ann (a@x)"]);
            assert_eq!(extra, vec!["no-assertion"]);
            items.len()
        }
        _ => panic!("expected a choice"),
    };
    w.advance(Answer::Picked(n));
    assert_eq!(values(&w.doc, true, "PackageSupplier"), vec!["NOASSERTION"]);
    assert!(matches!(w.step, SetupStep::AskDifferentOriginator));
}

#[test]
fn supplier_person_and_go_back() {
    let mut w = to_supplier(Some(repo()));
    w.advance(Answer::Picked(0));
    assert!(matches!(w.step, SetupStep::PersonOrOrg(Role::Supplier, _)));
    w.advance(Answer::Picked(2));
    assert!(matches!(w.step, SetupStep::Author(Role::Supplier)));
    w.advance(Answer::Picked(0));
    w.advance(Answer::Picked(1));
    assert_eq!(values(&w.doc, true, "PackageSupplier"), vec!["Organization: Ann (a@x)"]);
    assert!(matches!(w.step, SetupStep::AskDifferentOriginator));
    w.advance(Answer::Confirmed(true));
    assert!(matches!(w.step, SetupStep::Author(Role::Originator)));
    w.advance(Answer::Entered("Bob".to_string()));
    w.advance(Answer::Picked(0));
    assert_eq!(values(&w.doc, true, "PackageOriginator"), vec!["Person: Bob"]);
    assert!(matches!(w.step, SetupStep::DownloadLocation));
}

#[test]
fn declining_supplier_moves_to_originator() {
    let mut w = to_supplier(None);
    w.advance(Answer::Escaped);
    assert!(matches!(w.step, SetupStep::Author(Role::Originator)));
    w.advance(Answer::Entered(String::new()));
    assert!(matches!(w.step, SetupStep::DownloadLocation));
    assert!(values(&w.doc, true, "PackageSupplier").is_empty());
}

fn to_download(vcs: Option<VcsInfo>) -> Wizard {
    let mut w = to_supplier(vcs);
    w.advance(Answer::Escaped);
    w.advance(Answer::Escaped);
    assert!(matches!(w.step, SetupStep::DownloadLocation));
    w
}

#[test]
fn remote_with_head_reference_gives_vcs_location() {
    let mut w = to_download(Some(with_head_ref(repo(), "v1.2")));
    w.advance(Answer::Picked(0));
    assert!(matches!(w.step, SetupStep::AddRevision(_)));
    w.advance(Answer::Picked(0));
    assert_eq!(values(&w.doc, true, "DownloadLocation"), vec!["git+https://example.com/repo.git@v1.2"]);
    assert!(matches!(w.step, SetupStep::DeclaredLicense));
}

#[test]
fn remote_without_revision() {
    let mut w = to_download(Some(repo()));
    w.advance(Answer::Picked(0));
    w.advance(Answer::Entered(String::new()));
    assert_eq!(values(&w.doc, true, "DownloadLocation"), vec!["git+https://example.com/repo.git"]);
}

#[test]
fn fixed_download_choices() {
    let mut w = to_download(None);
    w.advance(Answer::Picked(0));
    assert_eq!(values(&w.doc, true, "DownloadLocation"), vec!["NONE"]);
    let mut w = to_download(None);
    w.advance(Answer::Picked(1));
    assert_eq!(values(&w.doc, true, "DownloadLocation"), vec!["NOASSERTION"]);
    let mut w = to_download(None);
    w.advance(Answer::Picked(2));
    assert!(matches!(w.step, SetupStep::OtherDownloadLocation));
    w.advance(Answer::Entered(String::new()));
    assert!(matches!(w.step, SetupStep::OtherDownloadLocation));
    w.advance(Answer::Entered("https://x.org/a.tar.gz".to_string()));
    assert_eq!(values(&w.doc, true, "DownloadLocation"), vec!["https://x.org/a.tar.gz"]);
    let mut w = to_download(None);
    w.advance(Answer::Picked(3));
    assert!(matches!(w.step, SetupStep::DownloadLocation));
}

fn to_license() -> Wizard {
    let mut w = to_download(None);
    w.advance(Answer::Picked(0));
    assert!(matches!(w.step, SetupStep::DeclaredLicense));
    w
}

#[test]
fn declining_license_writes_instructions() {
    let mut w = to_license();
    w.advance(Answer::Entered(String::new()));
    assert!(values(&w.doc, true, "DeclaredLicense").is_empty());
    let text = w.doc.package_section.to_string();
    assert!(text.ends_with("# Edit the line below to specify a license.\n# DeclaredLicense: LICENSE-ID\n"));
    assert!(matches!(w.step, SetupStep::AskVerificationCode));
}

#[test]
fn license_expression_is_checked() {
    let mut w = to_license();
    w.advance(Answer::Entered("NOT A LICENSE(".to_string()));
    assert!(matches!(w.step, SetupStep::DeclaredLicense));
    w.advance(Answer::Entered("MIT OR Apache-2.0".to_string()));
    assert_eq!(values(&w.doc, true, "DeclaredLicense"), vec!["MIT OR Apache-2.0"]);
    assert!(check_license("").is_ok());
    assert!(check_license("MIT").is_ok());
    assert!(check_license("MIT OR").is_err());
}

#[test]
fn run_ends_by_writing_the_document() {
    let mut w = to_license();
    w.advance(Answer::Entered("MIT".to_string()));
    w.advance(Answer::Confirmed(true));
    assert!(matches!(w.prompt(), Prompt::Notice { .. }));
    w.advance(Answer::Done);
    match w.prompt() {
        Prompt::Write { text } => assert_eq!(text, w.doc.to_string()),
        _ => panic!("expected the document"),
    }
    w.advance(Answer::Done);
    assert!(w.is_finished());
    assert!(matches!(w.prompt(), Prompt::Finished));
}

#[test]
fn aborting_ends_the_run() {
    let mut w = to_version(None);
    w.advance(Answer::Aborted);
    assert!(w.is_finished());
}

#[test]
fn answer_of_wrong_kind_changes_nothing() {
    let mut w = to_version(None);
    w.advance(Answer::Confirmed(true));
    assert!(matches!(w.step, SetupStep::PackageVersion));
    assert_eq!(values(&w.doc, true, "PackageName"), vec!["demo"]);
}
