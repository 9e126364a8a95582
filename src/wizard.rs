use vstd::prelude::*;
use vstd::string::StringExecFns;
use crate::model::{LineView, SpdxDocument, SpdxSection, values_with_tag};
use crate::vcs::{VcsInfo, location, location_text, opt_view, strings_view, user_text, users_view};
use crate::outside::{is_license_expression, license_list_version, login_name, parse_license, random_id, real_name};

verus! {

/// Which package party an author step asks for.
#[derive(Clone, Copy, PartialEq, Eq, Structural)]
pub enum Role {
    Supplier,
    Originator,
}

/// The steps of the question sequence.
pub enum SetupStep {
    FixedDocumentProperties,
    /// Who created the document; the offered names.
    CreatorPerson(Vec<String>),
    CreatorHasOrg,
    CreatorOrg,
    PackageName,
    PackageVersion,
    DocumentName,
    DocumentNamespace,
    Author(Role),
    /// Whether the chosen name is a person or an organization.
    PersonOrOrg(Role, String),
    AskDifferentOriginator,
    DownloadLocation,
    /// Which revision of the chosen remote.
    AddRevision(String),
    OtherDownloadLocation,
    DeclaredLicense,
    AskVerificationCode,
    VerificationCode,
    FileCreate,
    Finished,
}

pub enum StepView {
    FixedDocumentProperties,
    CreatorPerson(Seq<Seq<char>>),
    CreatorHasOrg,
    CreatorOrg,
    PackageName,
    PackageVersion,
    DocumentName,
    DocumentNamespace,
    Author(Role),
    PersonOrOrg(Role, Seq<char>),
    AskDifferentOriginator,
    DownloadLocation,
    AddRevision(Seq<char>),
    OtherDownloadLocation,
    DeclaredLicense,
    AskVerificationCode,
    VerificationCode,
    FileCreate,
    Finished,
}

impl View for SetupStep {
    type V = StepView;

    open spec fn view(&self) -> StepView {
        match self {
            SetupStep::FixedDocumentProperties => StepView::FixedDocumentProperties,
            SetupStep::CreatorPerson(v) => StepView::CreatorPerson(strings_view(v@)),
            SetupStep::CreatorHasOrg => StepView::CreatorHasOrg,
            SetupStep::CreatorOrg => StepView::CreatorOrg,
            SetupStep::PackageName => StepView::PackageName,
            SetupStep::PackageVersion => StepView::PackageVersion,
            SetupStep::DocumentName => StepView::DocumentName,
            SetupStep::DocumentNamespace => StepView::DocumentNamespace,
            SetupStep::Author(r) => StepView::Author(*r),
            SetupStep::PersonOrOrg(r, n) => StepView::PersonOrOrg(*r, n@),
            SetupStep::AskDifferentOriginator => StepView::AskDifferentOriginator,
            SetupStep::DownloadLocation => StepView::DownloadLocation,
            SetupStep::AddRevision(u) => StepView::AddRevision(u@),
            SetupStep::OtherDownloadLocation => StepView::OtherDownloadLocation,
            SetupStep::DeclaredLicense => StepView::DeclaredLicense,
            SetupStep::AskVerificationCode => StepView::AskVerificationCode,
            SetupStep::VerificationCode => StepView::VerificationCode,
            SetupStep::FileCreate => StepView::FileCreate,
            SetupStep::Finished => StepView::Finished,
        }
    }
}

/// What the person answered to a prompt.
pub enum Answer {
    /// An automatic step, a notice or the writing of the document is done.
    Done,
    /// The answer to a yes/no question.
    Confirmed(bool),
    /// Free text; for a choice with free text, the text typed after "other".
    Entered(String),
    /// The position of the chosen option.
    Picked(usize),
    /// The choice was left without picking anything.
    Escaped,
    /// The interaction failed: the sequence stops without writing anything.
    Aborted,
}

pub enum AnswerView {
    Done,
    Confirmed(bool),
    Entered(Seq<char>),
    Picked(nat),
    Escaped,
    Aborted,
}

impl View for Answer {
    type V = AnswerView;

    open spec fn view(&self) -> AnswerView {
        match self {
            Answer::Done => AnswerView::Done,
            Answer::Confirmed(b) => AnswerView::Confirmed(*b),
            Answer::Entered(s) => AnswerView::Entered(s@),
            Answer::Picked(i) => AnswerView::Picked(*i as nat),
            Answer::Escaped => AnswerView::Escaped,
            Answer::Aborted => AnswerView::Aborted,
        }
    }
}

/// What is known before the questions start.
pub struct SetupData {
    pub vcs: Option<VcsInfo>,
    /// The name of the directory the package lives in.
    pub dir_name: String,
    pub tool_name: String,
    pub tool_version: String,
}

/// The question sequence: the current step, the document being filled, and
/// the creator names entered so far.
pub struct Wizard {
    pub setup: SetupData,
    pub step: SetupStep,
    pub doc: SpdxDocument,
    pub creators: Vec<String>,
}

pub struct WizardView {
    pub step: StepView,
    pub doc: Seq<LineView>,
    pub pkg: Seq<LineView>,
    pub creators: Seq<Seq<char>>,
}

impl View for Wizard {
    type V = WizardView;

    open spec fn view(&self) -> WizardView {
        WizardView {
            step: self.step@,
            doc: self.doc.document_section@,
            pkg: self.doc.package_section@,
            creators: strings_view(self.creators@),
        }
    }
}

pub open spec fn entry(tag: &str, value: Seq<char>) -> LineView {
    LineView::Entry(tag@, value)
}

/// What a choice among `items` with free text gave: `None` when the answer
/// does not fit the question, else the offered item picked, the non-empty
/// text typed, or nothing.
pub open spec fn choice_outcome(items: Seq<Seq<char>>, a: AnswerView) -> Option<Option<Seq<char>>> {
    match a {
        AnswerView::Picked(i) => if i < items.len() { Some(Some(items[i as int])) } else { None },
        AnswerView::Entered(t) => Some(if t.len() > 0 { Some(t) } else { None }),
        AnswerView::Escaped => Some(None),
        _ => None,
    }
}

pub open spec fn setup_user(s: &SetupData) -> Option<Seq<char>> {
    match s.vcs {
        Some(v) => match v.user {
            Some(u) => Some(user_text(u@)),
            None => None,
        },
        None => None,
    }
}

/// The names offered for the document's creator: the configured user, then
/// the login name and the full name of the current user.
pub open spec fn creator_choices(s: &SetupData, login: Seq<char>, full: Seq<char>) -> Seq<Seq<char>> {
    let base = match setup_user(s) {
        Some(u) => seq![u],
        None => Seq::empty(),
    };
    base + seq![login + " ()"@, full + " ()"@]
}

/// The ranked authors offered for `role`.
pub open spec fn role_authors(s: &SetupData, role: Role) -> Seq<Seq<char>> {
    match s.vcs {
        Some(v) => {
            let l = match role {
                Role::Supplier => v.active_project_authors@,
                Role::Originator => v.oldest_project_authors@,
            };
            users_view(l).map_values(|u| user_text(u))
        },
        None => Seq::empty(),
    }
}

/// The names offered for `role`: its ranked authors, then the creators.
pub open spec fn author_items(s: &SetupData, role: Role, creators: Seq<Seq<char>>) -> Seq<Seq<char>> {
    role_authors(s, role) + creators
}

pub open spec fn remotes(s: &SetupData) -> Seq<Seq<char>> {
    match s.vcs {
        Some(v) => strings_view(v.remote_urls@),
        None => Seq::empty(),
    }
}

pub open spec fn revisions(s: &SetupData) -> Seq<Seq<char>> {
    match s.vcs {
        Some(v) => strings_view(v.head_refs@),
        None => Seq::empty(),
    }
}

pub open spec fn role_tag(role: Role) -> Seq<char> {
    match role {
        Role::Supplier => "PackageSupplier"@,
        Role::Originator => "PackageOriginator"@,
    }
}

/// Where an author step goes when nothing was chosen.
pub open spec fn role_skip(role: Role) -> StepView {
    match role {
        Role::Supplier => StepView::Author(Role::Originator),
        Role::Originator => StepView::DownloadLocation,
    }
}

/// Where an author step goes once its value is written.
pub open spec fn role_done(role: Role) -> StepView {
    match role {
        Role::Supplier => StepView::AskDifferentOriginator,
        Role::Originator => StepView::DownloadLocation,
    }
}

pub open spec fn first_or_empty(v: Seq<Seq<char>>) -> Seq<char> {
    if v.len() > 0 { v[0] } else { Seq::empty() }
}

/// The name offered for the document: the package name, followed by
/// `-<version>` when a version was entered.
pub open spec fn default_document_name(pkg: Seq<LineView>) -> Seq<char> {
    let versions = values_with_tag(pkg, "PackageVersion"@);
    first_or_empty(values_with_tag(pkg, "PackageName"@)) + if versions.len() > 0 {
        "-"@ + versions[0]
    } else {
        Seq::empty()
    }
}

/// The fixed lines that open the document section.
pub open spec fn fixed_lines(s: &SetupData, doc: Seq<LineView>) -> Seq<LineView> {
    doc.push(entry("SPDXVersion", "SPDX-2.3"@))
        .push(entry("DataLicense", "CC0-1.0"@))
        .push(entry("SPDXID", "SPDXRef-DOCUMENT"@))
        .push(entry("LicenseListVersion", "3.18"@))
        .push(LineView::Comment("Update DocumentComment if you make further changes to this document"@))
        .push(entry("DocumentComment", "This document only gives licensing information about the package it was created for, not its dependencies."@))
        .push(entry("Creator", "Tool: "@ + s.tool_name@ + "-"@ + s.tool_version@))
}

pub open spec fn goto(w: WizardView, step: StepView) -> WizardView {
    WizardView { step, doc: w.doc, pkg: w.pkg, creators: w.creators }
}

pub open spec fn with_pkg(w: WizardView, step: StepView, line: LineView) -> WizardView {
    WizardView { step, doc: w.doc, pkg: w.pkg.push(line), creators: w.creators }
}

pub open spec fn with_doc(w: WizardView, step: StepView, line: LineView) -> WizardView {
    WizardView { step, doc: w.doc.push(line), pkg: w.pkg, creators: w.creators }
}

/// The state after answer `a`, given the login name, full name and random
/// identifier that the current step may use. An answer of the wrong kind
/// leaves the state as it is; `Aborted` ends the sequence.
pub open spec fn next_view(
    s: &SetupData,
    w: WizardView,
    a: AnswerView,
    login: Seq<char>,
    full: Seq<char>,
    id: Seq<char>,
) -> WizardView {
    if a is Aborted {
        goto(w, StepView::Finished)
    } else {
        match w.step {
            StepView::FixedDocumentProperties => if a is Done {
                WizardView {
                    step: StepView::CreatorPerson(creator_choices(s, login, full)),
                    doc: fixed_lines(s, w.doc),
                    pkg: w.pkg,
                    creators: w.creators,
                }
            } else {
                w
            },
            StepView::CreatorPerson(items) => match choice_outcome(items, a) {
                Some(Some(p)) => WizardView {
                    step: StepView::CreatorHasOrg,
                    doc: w.doc.push(entry("Creator", "Person: "@ + p)),
                    pkg: w.pkg,
                    creators: w.creators.push(p),
                },
                Some(None) => goto(w, StepView::CreatorHasOrg),
                None => w,
            },
            StepView::CreatorHasOrg => match a {
                AnswerView::Confirmed(b) => goto(w, if b { StepView::CreatorOrg } else { StepView::PackageName }),
                _ => w,
            },
            StepView::CreatorOrg => match a {
                AnswerView::Entered(org) => if org.len() > 0 {
                    WizardView {
                        step: StepView::PackageName,
                        doc: w.doc.push(entry("Creator", "Organization: "@ + org)),
                        pkg: w.pkg,
                        creators: w.creators.push(org),
                    }
                } else {
                    goto(w, StepView::PackageName)
                },
                _ => w,
            },
            StepView::PackageName => match a {
                AnswerView::Entered(name) => WizardView {
                    step: StepView::PackageVersion,
                    doc: w.doc,
                    pkg: w.pkg.push(entry("SPDXID", "SPDXRef-Package-"@ + name)).push(entry("PackageName", name)),
                    creators: w.creators,
                },
                _ => w,
            },
            StepView::PackageVersion => match a {
                AnswerView::Entered(v) => if v.len() > 0 {
                    with_pkg(w, StepView::DocumentName, entry("PackageVersion", v))
                } else {
                    goto(w, StepView::DocumentName)
                },
                _ => w,
            },
            StepView::DocumentName => match a {
                AnswerView::Entered(n) => with_doc(w, StepView::DocumentNamespace, entry("DocumentName", n)),
                _ => w,
            },
            StepView::DocumentNamespace => if a is Done {
                with_doc(w, StepView::Author(Role::Supplier), entry("DocumentNamespace",
                    "https://spdx.org/spdxdocs/"@ + first_or_empty(values_with_tag(w.doc, "DocumentName"@)) + "-"@ + id))
            } else {
                w
            },
            StepView::Author(role) => {
                let items = author_items(s, role, w.creators);
                if a == AnswerView::Picked(items.len()) {
                    with_pkg(w, role_done(role), LineView::Entry(role_tag(role), "NOASSERTION"@))
                } else {
                    match choice_outcome(items, a) {
                        Some(Some(name)) => goto(w, StepView::PersonOrOrg(role, name)),
                        Some(None) => goto(w, role_skip(role)),
                        None => w,
                    }
                }
            },
            StepView::PersonOrOrg(role, name) => match a {
                AnswerView::Picked(i) => if i == 0 {
                    with_pkg(w, role_done(role), LineView::Entry(role_tag(role), "Person: "@ + name))
                } else if i == 1 {
                    with_pkg(w, role_done(role), LineView::Entry(role_tag(role), "Organization: "@ + name))
                } else if i == 2 {
                    goto(w, StepView::Author(role))
                } else {
                    w
                },
                _ => w,
            },
            StepView::AskDifferentOriginator => match a {
                AnswerView::Confirmed(b) => goto(w, if b { StepView::Author(Role::Originator) } else { StepView::DownloadLocation }),
                _ => w,
            },
            StepView::DownloadLocation => {
                let n = remotes(s).len();
                match a {
                    AnswerView::Picked(i) => if i < n {
                        goto(w, StepView::AddRevision(remotes(s)[i as int]))
                    } else if i == n {
                        with_pkg(w, StepView::DeclaredLicense, entry("DownloadLocation", "NONE"@))
                    } else if i == n + 1 {
                        with_pkg(w, StepView::DeclaredLicense, entry("DownloadLocation", "NOASSERTION"@))
                    } else if i == n + 2 {
                        goto(w, StepView::OtherDownloadLocation)
                    } else {
                        w
                    },
                    _ => w,
                }
            },
            StepView::AddRevision(url) => match s.vcs {
                Some(v) => match choice_outcome(revisions(s), a) {
                    Some(rev) => with_pkg(w, StepView::DeclaredLicense, entry("DownloadLocation",
                        location_text(v.vcs_name@, url, rev))),
                    None => w,
                },
                None => if a is Done { goto(w, StepView::DeclaredLicense) } else { w },
            },
            StepView::OtherDownloadLocation => match a {
                AnswerView::Entered(u) => if u.len() > 0 {
                    with_pkg(w, StepView::DeclaredLicense, entry("DownloadLocation", u))
                } else {
                    w
                },
                _ => w,
            },
            StepView::DeclaredLicense => match a {
                AnswerView::Entered(l) => if l.len() == 0 {
                    WizardView {
                        step: StepView::AskVerificationCode,
                        doc: w.doc,
                        pkg: w.pkg.push(LineView::Comment("Edit the line below to specify a license."@))
                            .push(LineView::Comment("DeclaredLicense: LICENSE-ID"@)),
                        creators: w.creators,
                    }
                } else if is_license_expression(l) {
                    with_pkg(w, StepView::AskVerificationCode, entry("DeclaredLicense", l))
                } else {
                    w
                },
                _ => w,
            },
            StepView::AskVerificationCode => match a {
                AnswerView::Confirmed(b) => goto(w, if b { StepView::VerificationCode } else { StepView::FileCreate }),
                _ => w,
            },
            StepView::VerificationCode => if a is Done { goto(w, StepView::FileCreate) } else { w },
            StepView::FileCreate => if a is Done { goto(w, StepView::Finished) } else { w },
            StepView::Finished => w,
        }
    }
}

/// `a` followed by `b`.
pub fn join(a: &str, b: &str) -> (r: String)
    ensures
        r@ == a@ + b@,
{
    let mut r = String::from_str(a);
    r.append(b);
    r
}

/// What a choice among `items` with free text gave (see `choice_outcome`).
pub fn choice(items: &Vec<String>, a: &Answer) -> (r: Option<Option<String>>)
    ensures
        r.is_some() == choice_outcome(strings_view(items@), a@).is_some(),
        r matches Some(x) ==> choice_outcome(strings_view(items@), a@) == Some(opt_view(x)),
{
    match a {
        Answer::Picked(i) => if *i < items.len() {
            Some(Some(items[*i].clone()))
        } else {
            None
        },
        Answer::Entered(t) => if !t.as_str().is_empty() {
            Some(Some(t.clone()))
        } else {
            Some(None)
        },
        Answer::Escaped => Some(None),
        _ => None,
    }
}

fn first_or_empty_of(v: &Vec<&str>) -> (r: String)
    ensures
        r@ == first_or_empty(v@.map_values(|x: &str| x@)),
{
    if v.len() > 0 {
        String::from_str(v[0])
    } else {
        String::new()
    }
}

/// The step the sequence starts with.
pub fn initial_step() -> (r: SetupStep)
    ensures
        r@ == StepView::FixedDocumentProperties,
{
    SetupStep::FixedDocumentProperties
}

impl Wizard {
    /// A sequence at its first step, with an empty document.
    pub fn new(setup: SetupData) -> (r: Wizard)
        ensures
            r.setup == setup,
            r@ == (WizardView {
                step: StepView::FixedDocumentProperties,
                doc: Seq::empty(),
                pkg: Seq::empty(),
                creators: Seq::empty(),
            }),
    {
        let r = Wizard { setup, step: initial_step(), doc: SpdxDocument::new(), creators: Vec::new() };
        assert(strings_view(r.creators@) =~= Seq::<Seq<char>>::empty());
        r
    }

    /// Whether the sequence has ended.
    pub fn is_finished(&self) -> (r: bool)
        ensures
            r == (self.step@ is Finished),
    {
        matches!(self.step, SetupStep::Finished)
    }

    fn push_creator(&mut self, name: String)
        ensures
            final(self).setup == old(self).setup,
            final(self).step == old(self).step,
            final(self).doc == old(self).doc,
            strings_view(final(self).creators@) == strings_view(old(self).creators@).push(name@),
    {
        self.creators.push(name);
        assert(strings_view(self.creators@) =~= strings_view(old(self).creators@).push(name@));
    }

    fn creator_items(&self, login: &str, full: &str) -> (r: Vec<String>)
        ensures
            strings_view(r@) == creator_choices(&self.setup, login@, full@),
    {
        let mut r: Vec<String> = Vec::new();
        match &self.setup.vcs {
            Some(v) => match &v.user {
                Some(u) => r.push(u.to_string()),
                None => {},
            },
            None => {},
        }
        r.push(join(login, " ()"));
        r.push(join(full, " ()"));
        assert(strings_view(r@) =~= creator_choices(&self.setup, login@, full@));
        r
    }

    fn author_list(&self, role: Role) -> (r: Vec<String>)
        ensures
            strings_view(r@) == author_items(&self.setup, role, strings_view(self.creators@)),
    {
        let mut r: Vec<String> = Vec::new();
        match &self.setup.vcs {
            Some(v) => {
                let l = match role {
                    Role::Supplier => &v.active_project_authors,
                    Role::Originator => &v.oldest_project_authors,
                };
                let mut i: usize = 0;
                while i < l.len()
                    invariant
                        i <= l@.len(),
                        r@.len() == i,
                        forall|j: int| 0 <= j < i ==> #[trigger] r@[j]@ == user_text(l@[j]@),
                    decreases l@.len() - i,
                {
                    r.push(l[i].to_string());
                    i = i + 1;
                }
                assert(strings_view(r@) =~= role_authors(&self.setup, role));
            },
            None => {
                assert(strings_view(r@) =~= role_authors(&self.setup, role));
            },
        }
        let ghost base = strings_view(r@);
        let mut k: usize = 0;
        while k < self.creators.len()
            invariant
                k <= self.creators@.len(),
                strings_view(r@) == base + strings_view(self.creators@).take(k as int),
            decreases self.creators@.len() - k,
        {
            let ghost prev = r@;
            r.push(self.creators[k].clone());
            assert(strings_view(r@) =~= strings_view(prev).push(self.creators@[k as int]@));
            assert(strings_view(self.creators@).take(k + 1) =~= strings_view(self.creators@).take(k as int).push(self.creators@[k as int]@));
            assert(strings_view(r@) =~= base + strings_view(self.creators@).take(k + 1));
            k = k + 1;
        }
        assert(strings_view(self.creators@).take(self.creators@.len() as int) =~= strings_view(self.creators@));
        r
    }

    fn add_pkg(&mut self, tag: &str, value: &str)
        ensures
            final(self).setup == old(self).setup,
            final(self).step == old(self).step,
            final(self).creators == old(self).creators,
            final(self).doc.document_section == old(self).doc.document_section,
            final(self).doc.package_section@ == old(self).doc.package_section@.push(LineView::Entry(tag@, value@)),
    {
        self.doc.package_section.add_entry(tag, value);
    }

    fn add_doc(&mut self, tag: &str, value: &str)
        ensures
            final(self).setup == old(self).setup,
            final(self).step == old(self).step,
            final(self).creators == old(self).creators,
            final(self).doc.package_section == old(self).doc.package_section,
            final(self).doc.document_section@ == old(self).doc.document_section@.push(LineView::Entry(tag@, value@)),
    {
        self.doc.document_section.add_entry(tag, value);
    }

    fn role_value(&mut self, role: Role, value: &str)
        ensures
            final(self).setup == old(self).setup,
            final(self).step == old(self).step,
            final(self).creators == old(self).creators,
            final(self).doc.document_section == old(self).doc.document_section,
            final(self).doc.package_section@ == old(self).doc.package_section@.push(LineView::Entry(role_tag(role), value@)),
    {
        match role {
            Role::Supplier => self.add_pkg("PackageSupplier", value),
            Role::Originator => self.add_pkg("PackageOriginator", value),
        }
    }

    fn role_done_step(role: Role) -> (r: SetupStep)
        ensures
            r@ == role_done(role),
    {
        match role {
            Role::Supplier => SetupStep::AskDifferentOriginator,
            Role::Originator => SetupStep::DownloadLocation,
        }
    }

    fn role_skip_step(role: Role) -> (r: SetupStep)
        ensures
            r@ == role_skip(role),
    {
        match role {
            Role::Supplier => SetupStep::Author(Role::Originator),
            Role::Originator => SetupStep::DownloadLocation,
        }
    }
}

impl Wizard {
    /// Takes answer `a` to the current step, given the login name, full name
    /// and random identifier that the step may use.
    pub fn apply(&mut self, a: Answer, login: &str, full: &str, id: &str)
        ensures
            final(self).setup == old(self).setup,
            final(self)@ == next_view(&old(self).setup, old(self)@, a@, login@, full@, id@),
    {
        if let Answer::Aborted = a {
            self.step = SetupStep::Finished;
            return;
        }
        let mut cur = SetupStep::Finished;
        std::mem::swap(&mut self.step, &mut cur);
        let next = match cur {
            SetupStep::FixedDocumentProperties => if let Answer::Done = a {
                let version = license_list_version();
                let mut tool = String::from_str("Tool: ");
                tool.append(self.setup.tool_name.as_str());
                tool.append("-");
                tool.append(self.setup.tool_version.as_str());
                let section = &mut self.doc.document_section;
                section.add_entry("SPDXVersion", "SPDX-2.3");
                section.add_entry("DataLicense", "CC0-1.0");
                section.add_entry("SPDXID", "SPDXRef-DOCUMENT");
                section.add_entry("LicenseListVersion", version.as_str());
                section.add_comment("Update DocumentComment if you make further changes to this document");
                section.add_entry("DocumentComment", "This document only gives licensing information about the package it was created for, not its dependencies.");
                section.add_entry("Creator", tool.as_str());
                SetupStep::CreatorPerson(self.creator_items(login, full))
            } else {
                SetupStep::FixedDocumentProperties
            },
            SetupStep::CreatorPerson(items) => match choice(&items, &a) {
                Some(Some(p)) => {
                    let line = join("Person: ", p.as_str());
                    self.add_doc("Creator", line.as_str());
                    self.push_creator(p);
                    SetupStep::CreatorHasOrg
                },
                Some(None) => SetupStep::CreatorHasOrg,
                None => SetupStep::CreatorPerson(items),
            },
            SetupStep::CreatorHasOrg => match a {
                Answer::Confirmed(b) => if b { SetupStep::CreatorOrg } else { SetupStep::PackageName },
                _ => SetupStep::CreatorHasOrg,
            },
            SetupStep::CreatorOrg => match a {
                Answer::Entered(org) => {
                    if !org.as_str().is_empty() {
                        let line = join("Organization: ", org.as_str());
                        self.add_doc("Creator", line.as_str());
                        self.push_creator(org);
                    }
                    SetupStep::PackageName
                },
                _ => SetupStep::CreatorOrg,
            },
            SetupStep::PackageName => match a {
                Answer::Entered(name) => {
                    let id_line = join("SPDXRef-Package-", name.as_str());
                    self.add_pkg("SPDXID", id_line.as_str());
                    self.add_pkg("PackageName", name.as_str());
                    SetupStep::PackageVersion
                },
                _ => SetupStep::PackageName,
            },
            SetupStep::PackageVersion => match a {
                Answer::Entered(v) => {
                    if !v.as_str().is_empty() {
                        self.add_pkg("PackageVersion", v.as_str());
                    }
                    SetupStep::DocumentName
                },
                _ => SetupStep::PackageVersion,
            },
            SetupStep::DocumentName => match a {
                Answer::Entered(n) => {
                    self.add_doc("DocumentName", n.as_str());
                    SetupStep::DocumentNamespace
                },
                _ => SetupStep::DocumentName,
            },
            SetupStep::DocumentNamespace => if let Answer::Done = a {
                let name = first_or_empty_of(&self.doc.document_section.find("DocumentName"));
                let mut ns = String::from_str("https://spdx.org/spdxdocs/");
                ns.append(name.as_str());
                ns.append("-");
                ns.append(id);
                self.add_doc("DocumentNamespace", ns.as_str());
                SetupStep::Author(Role::Supplier)
            } else {
                SetupStep::DocumentNamespace
            },
            SetupStep::Author(role) => {
                let items = self.author_list(role);
                let picked_none = match a {
                    Answer::Picked(i) => i == items.len(),
                    _ => false,
                };
                if picked_none {
                    self.role_value(role, "NOASSERTION");
                    Self::role_done_step(role)
                } else {
                    match choice(&items, &a) {
                        Some(Some(name)) => SetupStep::PersonOrOrg(role, name),
                        Some(None) => Self::role_skip_step(role),
                        None => SetupStep::Author(role),
                    }
                }
            },
            SetupStep::PersonOrOrg(role, name) => match a {
                Answer::Picked(i) => if i == 0 {
                    let v = join("Person: ", name.as_str());
                    self.role_value(role, v.as_str());
                    Self::role_done_step(role)
                } else if i == 1 {
                    let v = join("Organization: ", name.as_str());
                    self.role_value(role, v.as_str());
                    Self::role_done_step(role)
                } else if i == 2 {
                    SetupStep::Author(role)
                } else {
                    SetupStep::PersonOrOrg(role, name)
                },
                _ => SetupStep::PersonOrOrg(role, name),
            },
            SetupStep::AskDifferentOriginator => match a {
                Answer::Confirmed(b) => if b { SetupStep::Author(Role::Originator) } else { SetupStep::DownloadLocation },
                _ => SetupStep::AskDifferentOriginator,
            },
            SetupStep::DownloadLocation => {
                let n: usize = match &self.setup.vcs {
                    Some(v) => v.remote_urls.len(),
                    None => 0,
                };
                match a {
                    Answer::Picked(i) => if i < n {
                        match &self.setup.vcs {
                            Some(v) => SetupStep::AddRevision(v.remote_urls[i].clone()),
                            None => SetupStep::DownloadLocation,
                        }
                    } else if i == n {
                        self.add_pkg("DownloadLocation", "NONE");
                        SetupStep::DeclaredLicense
                    } else if i - n == 1 {
                        self.add_pkg("DownloadLocation", "NOASSERTION");
                        SetupStep::DeclaredLicense
                    } else if i - n == 2 {
                        SetupStep::OtherDownloadLocation
                    } else {
                        SetupStep::DownloadLocation
                    },
                    _ => SetupStep::DownloadLocation,
                }
            },
            SetupStep::AddRevision(url) => {
                let loc: Option<String> = match &self.setup.vcs {
                    Some(v) => match choice(&v.head_refs, &a) {
                        Some(rev) => {
                            let r = match &rev {
                                Some(x) => Some(x.as_str()),
                                None => None,
                            };
                            Some(location(v.vcs_name.as_str(), url.as_str(), r))
                        },
                        None => None,
                    },
                    None => None,
                };
                match loc {
                    Some(l) => {
                        self.add_pkg("DownloadLocation", l.as_str());
                        SetupStep::DeclaredLicense
                    },
                    None => if self.setup.vcs.is_none() && matches!(a, Answer::Done) {
                        SetupStep::DeclaredLicense
                    } else {
                        SetupStep::AddRevision(url)
                    },
                }
            },
            SetupStep::OtherDownloadLocation => match a {
                Answer::Entered(u) => if !u.as_str().is_empty() {
                    self.add_pkg("DownloadLocation", u.as_str());
                    SetupStep::DeclaredLicense
                } else {
                    SetupStep::OtherDownloadLocation
                },
                _ => SetupStep::OtherDownloadLocation,
            },
            SetupStep::DeclaredLicense => match a {
                Answer::Entered(l) => if l.as_str().is_empty() {
                    self.doc.package_section.add_comment("Edit the line below to specify a license.");
                    self.doc.package_section.add_comment("DeclaredLicense: LICENSE-ID");
                    SetupStep::AskVerificationCode
                } else if parse_license(l.as_str()).is_ok() {
                    self.add_pkg("DeclaredLicense", l.as_str());
                    SetupStep::AskVerificationCode
                } else {
                    SetupStep::DeclaredLicense
                },
                _ => SetupStep::DeclaredLicense,
            },
            SetupStep::AskVerificationCode => match a {
                Answer::Confirmed(b) => if b { SetupStep::VerificationCode } else { SetupStep::FileCreate },
                _ => SetupStep::AskVerificationCode,
            },
            SetupStep::VerificationCode => if let Answer::Done = a { SetupStep::FileCreate } else { SetupStep::VerificationCode },
            SetupStep::FileCreate => if let Answer::Done = a { SetupStep::Finished } else { SetupStep::FileCreate },
            SetupStep::Finished => SetupStep::Finished,
        };
        self.step = next;
    }

    /// Takes answer `a` to the current step. The first step learns the
    /// current user's login and full name, the namespace step draws a random
    /// identifier; whatever they are, the new state is the one `next_view`
    /// gives for them.
    pub fn advance(&mut self, a: Answer)
        ensures
            final(self).setup == old(self).setup,
            exists|login: Seq<char>, full: Seq<char>, id: Seq<char>|
                id.len() == 36 && final(self)@ == next_view(&old(self).setup, old(self)@, a@, login, full, id),
    {
        let (login, full) = if let SetupStep::FixedDocumentProperties = self.step {
            (login_name(), real_name())
        } else {
            (String::new(), String::new())
        };
        let id = if let SetupStep::DocumentNamespace = self.step {
            random_id()
        } else {
            String::from_str("00000000-0000-0000-0000-000000000000")
        };
        proof {
            reveal_strlit("00000000-0000-0000-0000-000000000000");
        }
        self.apply(a, login.as_str(), full.as_str(), id.as_str());
    }
}

/// What the current step asks. Messages are keys of the caller's texts.
pub enum Prompt {
    /// Nothing to ask: answer `Done`.
    Proceed,
    /// A yes/no question, with the answer taken when none is given.
    Confirm { message: String, default: Option<bool> },
    /// A text, with the text taken for an empty entry, the text the field
    /// starts with, whether an empty entry is allowed, and whether the text
    /// must be a license expression (see `check_license`).
    Input { message: String, default: Option<String>, initial: Option<String>, allow_empty: bool, license: bool },
    /// A choice among `items`, then the fixed options named by the keys
    /// `extra`; answer `Picked` with the position in that list.
    Select { message: String, items: Vec<String>, extra: Vec<String> },
    /// Like `Select`, with a last option "other" that asks for a text under
    /// `input_message` (answer `Entered`); with no options at all, only the
    /// text is asked.
    SelectOrInput { message: String, input_message: String, items: Vec<String>, extra: Vec<String> },
    /// A message to show; answer `Done`.
    Notice { message: String },
    /// The finished document to write out; answer `Done` once written.
    Write { text: String },
    /// The sequence has ended.
    Finished,
}

pub enum PromptView {
    Proceed,
    Confirm { message: Seq<char>, default: Option<bool> },
    Input { message: Seq<char>, default: Option<Seq<char>>, initial: Option<Seq<char>>, allow_empty: bool, license: bool },
    Select { message: Seq<char>, items: Seq<Seq<char>>, extra: Seq<Seq<char>> },
    SelectOrInput { message: Seq<char>, input_message: Seq<char>, items: Seq<Seq<char>>, extra: Seq<Seq<char>> },
    Notice { message: Seq<char> },
    Write { text: Seq<char> },
    Finished,
}

impl View for Prompt {
    type V = PromptView;

    open spec fn view(&self) -> PromptView {
        match self {
            Prompt::Proceed => PromptView::Proceed,
            Prompt::Confirm { message, default } => PromptView::Confirm { message: message@, default: *default },
            Prompt::Input { message, default, initial, allow_empty, license } => PromptView::Input {
                message: message@,
                default: opt_view(*default),
                initial: opt_view(*initial),
                allow_empty: *allow_empty,
                license: *license,
            },
            Prompt::Select { message, items, extra } => PromptView::Select {
                message: message@,
                items: strings_view(items@),
                extra: strings_view(extra@),
            },
            Prompt::SelectOrInput { message, input_message, items, extra } => PromptView::SelectOrInput {
                message: message@,
                input_message: input_message@,
                items: strings_view(items@),
                extra: strings_view(extra@),
            },
            Prompt::Notice { message } => PromptView::Notice { message: message@ },
            Prompt::Write { text } => PromptView::Write { text: text@ },
            Prompt::Finished => PromptView::Finished,
        }
    }
}

pub open spec fn input_view(message: &str, default: Option<Seq<char>>, initial: Option<Seq<char>>, allow_empty: bool, license: bool) -> PromptView {
    PromptView::Input { message: message@, default, initial, allow_empty, license }
}

pub open spec fn role_name(role: Role) -> Seq<char> {
    match role {
        Role::Supplier => "supplier"@,
        Role::Originator => "originator"@,
    }
}

/// What step `w.step` asks.
pub open spec fn prompt_of(s: &SetupData, w: WizardView) -> PromptView {
    match w.step {
        StepView::FixedDocumentProperties => PromptView::Proceed,
        StepView::CreatorPerson(items) => PromptView::SelectOrInput {
            message: "creator-person-prompt"@,
            input_message: "creator-custom-person-prompt"@,
            items,
            extra: Seq::empty(),
        },
        StepView::CreatorHasOrg => PromptView::Confirm { message: "creator-has-org-prompt"@, default: Some(false) },
        StepView::CreatorOrg => input_view("creator-org-prompt", None, None, true, false),
        StepView::PackageName => input_view("name-prompt", Some(s.dir_name@), None, false, false),
        StepView::PackageVersion => input_view("version-prompt", None, match s.vcs {
            Some(v) => opt_view(v.latest_version),
            None => None,
        }, true, false),
        StepView::DocumentName => input_view("doc-name-prompt", Some(default_document_name(w.pkg)), None, false, false),
        StepView::DocumentNamespace => PromptView::Proceed,
        StepView::Author(role) => PromptView::SelectOrInput {
            message: "select-"@ + role_name(role) + "-prompt"@,
            input_message: "input-"@ + role_name(role) + "-prompt"@,
            items: author_items(s, role, w.creators),
            extra: seq!["no-assertion"@],
        },
        StepView::PersonOrOrg(_, _) => PromptView::Select {
            message: "ask-person-or-org"@,
            items: Seq::empty(),
            extra: seq!["person"@, "org"@, "go-back"@],
        },
        StepView::AskDifferentOriginator => PromptView::Confirm {
            message: "ask-different-originator-prompt"@,
            default: Some(false),
        },
        StepView::DownloadLocation => PromptView::Select {
            message: "download-select-prompt"@,
            items: remotes(s),
            extra: seq!["nowhere"@, "no-assertion"@, "other"@],
        },
        StepView::AddRevision(_) => if s.vcs is Some {
            PromptView::SelectOrInput {
                message: "download-rev-select-prompt"@,
                input_message: "download-rev-input-prompt"@,
                items: revisions(s),
                extra: Seq::empty(),
            }
        } else {
            PromptView::Proceed
        },
        StepView::OtherDownloadLocation => input_view("other-download-prompt", None, None, false, false),
        StepView::DeclaredLicense => input_view("license-input-prompt", None, None, true, true),
        StepView::AskVerificationCode => PromptView::Confirm { message: "ask-verif-code"@, default: None },
        StepView::VerificationCode => PromptView::Notice { message: "verification-code-unsupported"@ },
        StepView::FileCreate => PromptView::Write { text: crate::model::document_text(w.doc, w.pkg) },
        StepView::Finished => PromptView::Finished,
    }
}

fn keys(k: &[&str]) -> (r: Vec<String>)
    ensures
        strings_view(r@) == k@.map_values(|x: &str| x@),
{
    let mut r: Vec<String> = Vec::new();
    let mut i: usize = 0;
    while i < k.len()
        invariant
            i <= k@.len(),
            strings_view(r@) == k@.take(i as int).map_values(|x: &str| x@),
        decreases k@.len() - i,
    {
        let ghost prev = r@;
        r.push(String::from_str(k[i]));
        assert(strings_view(r@) =~= strings_view(prev).push(k@[i as int]@));
        assert(k@.take(i + 1).map_values(|x: &str| x@) =~= k@.take(i as int).map_values(|x: &str| x@).push(k@[i as int]@));
        i = i + 1;
    }
    assert(k@.take(k@.len() as int) =~= k@);
    r
}

fn no_keys() -> (r: Vec<String>)
    ensures
        strings_view(r@) == Seq::<Seq<char>>::empty(),
{
    let r: Vec<String> = Vec::new();
    assert(strings_view(r@) =~= Seq::<Seq<char>>::empty());
    r
}

fn input(message: &str, default: Option<String>, initial: Option<String>, allow_empty: bool, license: bool) -> (r: Prompt)
    ensures
        r@ == input_view(message, opt_view(default), opt_view(initial), allow_empty, license),
{
    Prompt::Input { message: String::from_str(message), default, initial, allow_empty, license }
}

fn copy_strings(v: &Vec<String>) -> (r: Vec<String>)
    ensures
        strings_view(r@) == strings_view(v@),
{
    let mut r: Vec<String> = Vec::new();
    let mut i: usize = 0;
    while i < v.len()
        invariant
            i <= v@.len(),
            strings_view(r@) == strings_view(v@).take(i as int),
        decreases v@.len() - i,
    {
        let ghost prev = r@;
        r.push(v[i].clone());
        assert(strings_view(r@) =~= strings_view(prev).push(v@[i as int]@));
        assert(strings_view(v@).take(i + 1) =~= strings_view(v@).take(i as int).push(v@[i as int]@));
        i = i + 1;
    }
    assert(strings_view(v@).take(v@.len() as int) =~= strings_view(v@));
    r
}

/// Checks a license text: empty, or a valid license expression; otherwise
/// the parser's message.
pub fn check_license(text: &str) -> (r: Result<(), String>)
    ensures
        r.is_ok() == (text@.len() == 0 || is_license_expression(text@)),
{
    if text.is_empty() {
        Ok(())
    } else {
        parse_license(text)
    }
}

impl Wizard {
    /// The name offered for the document (see `default_document_name`).
    pub fn document_name_default(&self) -> (r: String)
        ensures
            r@ == default_document_name(self.doc.package_section@),
    {
        let mut r = first_or_empty_of(&self.doc.package_section.find("PackageName"));
        let versions = self.doc.package_section.find("PackageVersion");
        if versions.len() > 0 {
            r.append("-");
            r.append(versions[0]);
        }
        r
    }

    /// What the current step asks.
    pub fn prompt(&self) -> (r: Prompt)
        ensures
            r@ == prompt_of(&self.setup, self@),
    {
        match &self.step {
            SetupStep::FixedDocumentProperties => Prompt::Proceed,
            SetupStep::CreatorPerson(items) => Prompt::SelectOrInput {
                message: String::from_str("creator-person-prompt"),
                input_message: String::from_str("creator-custom-person-prompt"),
                items: copy_strings(items),
                extra: no_keys(),
            },
            SetupStep::CreatorHasOrg => Prompt::Confirm { message: String::from_str("creator-has-org-prompt"), default: Some(false) },
            SetupStep::CreatorOrg => input("creator-org-prompt", None, None, true, false),
            SetupStep::PackageName => input("name-prompt", Some(self.setup.dir_name.clone()), None, false, false),
            SetupStep::PackageVersion => {
                let initial = match &self.setup.vcs {
                    Some(v) => crate::vcs::copy_opt(&v.latest_version),
                    None => None,
                };
                input("version-prompt", None, initial, true, false)
            },
            SetupStep::DocumentName => input("doc-name-prompt", Some(self.document_name_default()), None, false, false),
            SetupStep::DocumentNamespace => Prompt::Proceed,
            SetupStep::Author(role) => {
                let name = match role {
                    Role::Supplier => "supplier",
                    Role::Originator => "originator",
                };
                let mut message = join("select-", name);
                message.append("-prompt");
                let mut input_message = join("input-", name);
                input_message.append("-prompt");
                let extra = keys(&["no-assertion"]);
                assert(strings_view(extra@) =~= seq!["no-assertion"@]);
                Prompt::SelectOrInput { message, input_message, items: self.author_list(*role), extra }
            },
            SetupStep::PersonOrOrg(_, _) => {
                let extra = keys(&["person", "org", "go-back"]);
                assert(strings_view(extra@) =~= seq!["person"@, "org"@, "go-back"@]);
                Prompt::Select { message: String::from_str("ask-person-or-org"), items: no_keys(), extra }
            },
            SetupStep::AskDifferentOriginator => Prompt::Confirm {
                message: String::from_str("ask-different-originator-prompt"),
                default: Some(false),
            },
            SetupStep::DownloadLocation => {
                let items = match &self.setup.vcs {
                    Some(v) => copy_strings(&v.remote_urls),
                    None => no_keys(),
                };
                let extra = keys(&["nowhere", "no-assertion", "other"]);
                assert(strings_view(extra@) =~= seq!["nowhere"@, "no-assertion"@, "other"@]);
                Prompt::Select { message: String::from_str("download-select-prompt"), items, extra }
            },
            SetupStep::AddRevision(_) => match &self.setup.vcs {
                Some(v) => Prompt::SelectOrInput {
                    message: String::from_str("download-rev-select-prompt"),
                    input_message: String::from_str("download-rev-input-prompt"),
                    items: copy_strings(&v.head_refs),
                    extra: no_keys(),
                },
                None => Prompt::Proceed,
            },
            SetupStep::OtherDownloadLocation => input("other-download-prompt", None, None, false, false),
            SetupStep::DeclaredLicense => input("license-input-prompt", None, None, true, true),
            SetupStep::AskVerificationCode => Prompt::Confirm { message: String::from_str("ask-verif-code"), default: None },
            SetupStep::VerificationCode => Prompt::Notice { message: String::from_str("verification-code-unsupported") },
            SetupStep::FileCreate => Prompt::Write { text: self.doc.to_string() },
            SetupStep::Finished => Prompt::Finished,
        }
    }
}

/// At the supplier step, picking "no assertion" (the option after the
/// offered names) writes `PackageSupplier: NOASSERTION` and goes straight to
/// the question about a different originator.
pub proof fn lemma_supplier_no_assertion(s: &SetupData, w: WizardView, login: Seq<char>, full: Seq<char>, id: Seq<char>)
    requires
        w.step == StepView::Author(Role::Supplier),
    ensures
        next_view(s, w, AnswerView::Picked(author_items(s, Role::Supplier, w.creators).len()), login, full, id)
            == (WizardView {
                step: StepView::AskDifferentOriginator,
                doc: w.doc,
                pkg: w.pkg.push(LineView::Entry("PackageSupplier"@, "NOASSERTION"@)),
                creators: w.creators,
            }),
{
}

/// Leaving the license empty adds the two fixed comment lines and no
/// `DeclaredLicense` entry.
pub proof fn lemma_no_license(s: &SetupData, w: WizardView, login: Seq<char>, full: Seq<char>, id: Seq<char>)
    requires
        w.step == StepView::DeclaredLicense,
    ensures
        ({
            let n = next_view(s, w, AnswerView::Entered(Seq::empty()), login, full, id);
            &&& n.pkg == w.pkg.push(LineView::Comment("Edit the line below to specify a license."@))
                .push(LineView::Comment("DeclaredLicense: LICENSE-ID"@))
            &&& values_with_tag(n.pkg, "DeclaredLicense"@) == values_with_tag(w.pkg, "DeclaredLicense"@)
            &&& n.step == StepView::AskVerificationCode
        }),
{
    let one = w.pkg.push(LineView::Comment("Edit the line below to specify a license."@));
    assert(one.drop_last() =~= w.pkg);
    let two = one.push(LineView::Comment("DeclaredLicense: LICENSE-ID"@));
    assert(two.drop_last() =~= one);
    assert(values_with_tag(one, "DeclaredLicense"@) == values_with_tag(w.pkg, "DeclaredLicense"@));
    assert(values_with_tag(two, "DeclaredLicense"@) == values_with_tag(one, "DeclaredLicense"@));
    assert(next_view(s, w, AnswerView::Entered(Seq::empty()), login, full, id).pkg == two);
}

/// The document name offered is the package name alone when no version was
/// entered, and `<name>-<version>` when one was.
pub proof fn lemma_document_name_default(pkg: Seq<LineView>, name: Seq<char>, version: Seq<char>)
    requires
        values_with_tag(pkg, "PackageName"@) == seq![name],
        values_with_tag(pkg, "PackageVersion"@).len() == 0,
    ensures
        default_document_name(pkg) == name,
        default_document_name(pkg.push(LineView::Entry("PackageVersion"@, version))) == name + "-"@ + version,
{
    let with_version = pkg.push(LineView::Entry("PackageVersion"@, version));
    assert(with_version.drop_last() =~= pkg);
    assert(name + Seq::<char>::empty() =~= name);
    assert("PackageVersion"@ != "PackageName"@) by {
        reveal_strlit("PackageVersion");
        reveal_strlit("PackageName");
        assert("PackageVersion"@.len() != "PackageName"@.len());
    }
    assert(values_with_tag(with_version, "PackageVersion"@) =~= seq![version]);
    assert(name + ("-"@ + version) =~= name + "-"@ + version);
}

} // verus!
