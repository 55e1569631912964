use vstd::prelude::*;

use crate::conf::Configuration;
use crate::os::debian::Apt;
use crate::run::{self, executor, Transaction, TransactionCommandView};
use crate::text::{
    chars_le, chars_of, join, lemma_lex_antisymmetric, lemma_lex_total, lemma_lex_trans, lex_le,
    same_chars,
};
use core::cmp::Ordering;

verus! {

/// What a package manager can be asked to do without reading the system.
pub trait Packages: Sized {
    /// The transaction that installs `packages`.
    fn install(&self, packages: &[Package], config: &Configuration) -> Result<Transaction, Error>;

    /// The transaction that uninstalls `packages`.
    fn uninstall(&self, packages: &[Package], config: &Configuration) -> Result<
        Transaction,
        Error,
    >;

    /// Which package manager this is.
    fn variant(&self) -> &PackagerVariant;
}

/// The package manager of a system.
#[derive(Clone, Copy, Debug, PartialEq, Eq, Structural)]
pub enum Packager {
    Apt(Apt),
    Unknown,
}

impl Default for Packager {
    fn default() -> (r: Packager)
        ensures
            r == Packager::Unknown,
    {
        Packager::Unknown
    }
}

/// The error that a request to a package manager that is not known gives.
pub open spec fn unknown_packager_error(action: Seq<char>) -> ErrorView {
    ErrorView {
        message: "Can't "@ + action + " because package manager is unknown"@,
        kind: ErrorKind::UnknownPackager,
    }
}

/// What a request to install or uninstall `packages` gives.
pub open spec fn hauled(
    packager: Packager,
    operation: crate::os::debian::Operation,
    packages: Seq<PackageView>,
    config: crate::conf::ConfigurationView,
) -> Result<Seq<TransactionCommandView>, ErrorView> {
    match packager {
        Packager::Apt(_) => crate::os::debian::haul_result(operation, packages, config.su_command),
        Packager::Unknown => Err(
            unknown_packager_error(
                match operation {
                    crate::os::debian::Operation::Install => "install "@,
                    crate::os::debian::Operation::Uninstall => "uninstall "@,
                } + packages_debug(packages),
            ),
        ),
    }
}

impl Packages for Packager {
    fn install(&self, packages: &[Package], config: &Configuration) -> (r: Result<
        Transaction,
        Error,
    >)
        ensures
            crate::os::debian::matches_model(
                r,
                hauled(*self, crate::os::debian::Operation::Install, package_views(packages@), config@),
            ),
    {
        match self {
            Packager::Apt(p) => p.install(packages, config),
            Packager::Unknown => {
                let mut action = "install ".to_owned();
                let shown = debug_packages(packages);
                action.append(shown.as_str());
                Error::unknown_packager(action.as_str())
            },
        }
    }

    fn uninstall(&self, packages: &[Package], config: &Configuration) -> (r: Result<
        Transaction,
        Error,
    >)
        ensures
            crate::os::debian::matches_model(
                r,
                hauled(*self, crate::os::debian::Operation::Uninstall, package_views(packages@), config@),
            ),
    {
        match self {
            Packager::Apt(p) => p.uninstall(packages, config),
            Packager::Unknown => {
                let mut action = "uninstall ".to_owned();
                let shown = debug_packages(packages);
                action.append(shown.as_str());
                Error::unknown_packager(action.as_str())
            },
        }
    }

    fn variant(&self) -> (r: &PackagerVariant)
        ensures
            *r == match *self {
                Packager::Apt(a) => a@,
                Packager::Unknown => PackagerVariant::Unknown,
            },
    {
        match self {
            Packager::Apt(p) => p.variant(),
            Packager::Unknown => &PackagerVariant::Unknown,
        }
    }
}

/// The package managers that are told apart.
#[derive(Debug, Clone, Copy, Eq, PartialEq, Structural)]
pub enum PackagerVariant {
    Apt,
    Unknown,
}

impl Default for PackagerVariant {
    fn default() -> (r: PackagerVariant)
        ensures
            r == PackagerVariant::Unknown,
    {
        PackagerVariant::Unknown
    }
}

/// The model of a package: its name, and whether it was installed by hand
/// where that is known.
pub struct PackageView {
    pub name: Seq<char>,
    pub manual: Option<bool>,
}

/// A package, known by its name.
#[derive(Debug, Clone, Eq)]
pub struct Package {
    name: String,
    manual: Option<bool>,
}

impl View for Package {
    type V = PackageView;

    closed spec fn view(&self) -> PackageView {
        PackageView { name: self.name@, manual: self.manual }
    }
}

/// The views of a sequence of packages.
pub open spec fn package_views(v: Seq<Package>) -> Seq<PackageView> {
    v.map_values(|p: Package| p@)
}

/// The names of a sequence of packages.
pub open spec fn names(v: Seq<PackageView>) -> Seq<Seq<char>> {
    v.map_values(|p: PackageView| p.name)
}

impl Default for Package {
    fn default() -> (r: Package)
        ensures
            r@ == (PackageView { name: Seq::empty(), manual: None }),
    {
        Package { name: String::new(), manual: None }
    }
}

impl Package {
    /// The name of the package.
    pub fn name(&self) -> (r: &str)
        ensures
            r@ == self@.name,
    {
        self.name.as_str()
    }

    /// Whether the package was installed by hand, where that is known.
    pub fn manual(&self) -> (r: &Option<bool>)
        ensures
            *r == self@.manual,
    {
        &self.manual
    }

    /// A package whose manual installation is known.
    pub fn new_with_manual(name: &str, manual: bool) -> (r: Package)
        ensures
            r@ == (PackageView { name: name@, manual: Some(manual) }),
    {
        Package { name: name.to_owned(), manual: Some(manual) }
    }

    /// A package of the given name, its manual installation unknown.
    pub fn named(name: String) -> (r: Package)
        ensures
            r@ == (PackageView { name: name@, manual: None }),
    {
        Package { name, manual: None }
    }

    /// The package as it is shown: its name.
    pub fn to_string(&self) -> (r: String)
        ensures
            r@ == self@.name,
    {
        self.name.clone()
    }

    /// A copy of the package.
    pub fn duplicate(&self) -> (r: Package)
        ensures
            r@ == self@,
    {
        Package { name: self.name.clone(), manual: self.manual }
    }
}

impl PartialEq for Package {
    fn eq(&self, other: &Package) -> (r: bool) {
        self.name == other.name
    }
}

impl vstd::std_specs::cmp::PartialEqSpecImpl for Package {
    open spec fn obeys_eq_spec() -> bool {
        true
    }

    open spec fn eq_spec(&self, other: &Package) -> bool {
        self@.name == other@.name
    }
}

/// How two names are ordered: equal names are equal, and otherwise the one
/// whose characters come first, character by character (a prefix first).
pub open spec fn name_order(a: Seq<char>, b: Seq<char>) -> Ordering {
    if a == b {
        Ordering::Equal
    } else if lex_le(a, b) {
        Ordering::Less
    } else {
        Ordering::Greater
    }
}

/// Compares two names.
fn compare_names(a: &str, b: &str) -> (r: Ordering)
    ensures
        r == name_order(a@, b@),
{
    let x = chars_of(a);
    let y = chars_of(b);
    if same_chars(&x, &y) {
        Ordering::Equal
    } else if chars_le(&x, &y) {
        Ordering::Less
    } else {
        Ordering::Greater
    }
}

impl PartialOrd for Package {
    fn partial_cmp(&self, other: &Package) -> (r: Option<Ordering>) {
        Some(compare_names(self.name.as_str(), other.name.as_str()))
    }
}

impl vstd::std_specs::cmp::PartialOrdSpecImpl for Package {
    open spec fn obeys_partial_cmp_spec() -> bool {
        true
    }

    open spec fn partial_cmp_spec(&self, other: &Package) -> Option<Ordering> {
        Some(name_order(self@.name, other@.name))
    }
}

/// Packages are ordered by name alone, and totally: two packages compare
/// equal exactly when `==` holds of them, the order reverses when they are
/// swapped, and a package is at most another exactly when the order of names
/// that `sort_packages` keeps puts it first.
pub proof fn lemma_package_order(a: PackageView, b: PackageView)
    ensures
        (name_order(a.name, b.name) != Ordering::Greater) == lex_le(a.name, b.name),
        (name_order(a.name, b.name) == Ordering::Equal) == (a.name == b.name),
        (name_order(a.name, b.name) == Ordering::Less) == (name_order(b.name, a.name)
            == Ordering::Greater),
{
    lemma_lex_total(a.name, b.name);
    if lex_le(a.name, b.name) && lex_le(b.name, a.name) {
        lemma_lex_antisymmetric(a.name, b.name);
    }
}

/// The debug rendering of a string: quoted, with special characters escaped.
pub uninterp spec fn debug_text(s: Seq<char>) -> Seq<char>;

/// The debug rendering of a string slice (`<str as Debug>::fmt`).
#[verifier::external_body]
pub(crate) fn debug_str(s: &str) -> (r: String)
    ensures
        r@ == debug_text(s@),
{
    format!("{:?}", s)
}

/// How whether a package was installed by hand is shown.
pub open spec fn manual_debug(m: Option<bool>) -> Seq<char> {
    match m {
        None => "None"@,
        Some(true) => "Some(true)"@,
        Some(false) => "Some(false)"@,
    }
}

/// How a package is shown in debug output.
pub open spec fn package_debug(p: PackageView) -> Seq<char> {
    "Package { name: "@ + debug_text(p.name) + ", manual: "@ + manual_debug(p.manual) + " }"@
}

/// How a list of packages is shown in debug output.
pub open spec fn packages_debug(ps: Seq<PackageView>) -> Seq<char> {
    "["@ + join(ps.map_values(|p: PackageView| package_debug(p)), ", "@) + "]"@
}

/// Renders a package as debug output does.
fn debug_package(p: &Package) -> (r: String)
    ensures
        r@ == package_debug(p@),
{
    let mut r = "Package { name: ".to_owned();
    let q = debug_str(p.name.as_str());
    r.append(q.as_str());
    r.append(", manual: ");
    match p.manual {
        None => r.append("None"),
        Some(true) => r.append("Some(true)"),
        Some(false) => r.append("Some(false)"),
    }
    r.append(" }");
    r
}

/// Renders a list of packages as debug output does.
pub fn debug_packages(packages: &[Package]) -> (r: String)
    ensures
        r@ == packages_debug(package_views(packages@)),
{
    let ghost items = package_views(packages@).map_values(|p: PackageView| package_debug(p));
    let mut r = "[".to_owned();
    let ghost start = r@;
    let mut i: usize = 0;
    while i < packages.len()
        invariant
            i <= packages.len(),
            items == package_views(packages@).map_values(|p: PackageView| package_debug(p)),
            start == "["@,
            r@ == start + join(items.take(i as int), ", "@),
        decreases packages.len() - i,
    {
        assert(items.take(i + 1).drop_last() == items.take(i as int));
        if i != 0 {
            r.append(", ");
        }
        let item = debug_package(&packages[i]);
        assert(items[i as int] == item@);
        r.append(item.as_str());
        i += 1;
    }
    assert(items.take(packages.len() as int) == items);
    r.append("]");
    r
}

/// Whether packages are in the order of their names.
pub open spec fn sorted_by_name(ps: Seq<PackageView>) -> bool {
    forall|i: int, j: int| 0 <= i < j < ps.len() ==> lex_le(#[trigger] ps[i].name, #[trigger] ps[j].name)
}

/// Packages in the order of their names (the order `Ord` gives them),
/// keeping each one.
pub fn sort_packages(v: Vec<Package>) -> (r: Vec<Package>)
    ensures
        sorted_by_name(package_views(r@)),
        package_views(r@).to_multiset() == package_views(v@).to_multiset(),
{
    let mut r: Vec<Package> = Vec::new();
    let mut i: usize = 0;
    assert(package_views(r@) =~= package_views(v@).take(0));
    while i < v.len()
        invariant
            i <= v.len(),
            sorted_by_name(package_views(r@)),
            package_views(r@).to_multiset() == package_views(v@).take(i as int).to_multiset(),
        decreases v.len() - i,
    {
        let x = v[i].duplicate();
        let mut k: usize = r.len();
        while k > 0 && !chars_le(&chars_of_name(&r[k - 1]), &chars_of_name(&x))
            invariant
                k <= r.len(),
                forall|j: int| k <= j < r.len() ==> !lex_le(#[trigger] r@[j]@.name, x@.name),
            decreases k,
        {
            k -= 1;
        }
        let ghost before = package_views(r@);
        proof {
            assert forall|j: int| k <= j < before.len() implies lex_le(x@.name, #[trigger] before[j].name) by {
                lemma_lex_total(before[j].name, x@.name);
            }
            if k > 0 {
                assert(lex_le(before[k - 1].name, x@.name));
                assert forall|j: int| 0 <= j < k implies lex_le(#[trigger] before[j].name, x@.name) by {
                    if j < k - 1 {
                        lemma_lex_trans(before[j].name, before[k - 1].name, x@.name);
                    }
                }
            }
        }
        r.insert(k, x);
        assert(package_views(r@) =~= before.insert(k as int, x@));
        proof {
            vstd::seq_lib::to_multiset_insert(before, k as int, x@);
            vstd::seq_lib::to_multiset_build(package_views(v@).take(i as int), x@);
        }
        assert(package_views(v@).take(i + 1) =~= package_views(v@).take(i as int).push(x@));
        assert(sorted_by_name(package_views(r@))) by {
            let after = package_views(r@);
            assert forall|a: int, b: int| 0 <= a < b < after.len() implies lex_le(
                #[trigger] after[a].name,
                #[trigger] after[b].name,
            ) by {
                if a < k && b < k {
                    assert(after[a] == before[a] && after[b] == before[b]);
                } else if a < k && b == k {
                } else if a < k {
                    assert(after[a] == before[a] && after[b] == before[b - 1]);
                    lemma_lex_trans(before[a].name, x@.name, before[b - 1].name);
                } else if a == k {
                    assert(after[b] == before[b - 1]);
                } else {
                    assert(after[a] == before[a - 1] && after[b] == before[b - 1]);
                }
            }
        }
        i += 1;
    }
    assert(package_views(v@).take(v.len() as int) =~= package_views(v@));
    r
}

/// The characters of a package's name.
fn chars_of_name(p: &Package) -> (r: Vec<char>)
    ensures
        r@ == p@.name,
{
    crate::text::chars_of(p.name.as_str())
}

/// The model of a packaging error.
pub struct ErrorView {
    pub message: Seq<char>,
    pub kind: ErrorKind,
}

/// An error of a package manager.
#[derive(Debug, Clone)]
pub struct Error {
    pub message: String,
    pub kind: ErrorKind,
}

impl View for Error {
    type V = ErrorView;

    open spec fn view(&self) -> ErrorView {
        ErrorView { message: self.message@, kind: self.kind }
    }
}

impl Error {
    /// An error of the given kind.
    pub fn new(message: &str, kind: ErrorKind) -> (r: Error)
        ensures
            r@ == (ErrorView { message: message@, kind }),
    {
        Error { message: message.to_owned(), kind }
    }

    /// That error, as a failed result.
    pub fn wrapped<T>(message: &str, kind: ErrorKind) -> (r: Result<T, Error>)
        ensures
            r matches Err(e) && e@ == (ErrorView { message: message@, kind }),
    {
        Err(Error::new(message, kind))
    }

    /// The failed result of asking an unknown package manager to `action`.
    pub fn unknown_packager<T>(action: &str) -> (r: Result<T, Error>)
        ensures
            r matches Err(e) && e@ == unknown_packager_error(action@),
    {
        let mut message = "Can't ".to_owned();
        message.append(action);
        message.append(" because package manager is unknown");
        Err(Error { message, kind: ErrorKind::UnknownPackager })
    }

    /// A copy of the error.
    pub fn duplicate(&self) -> (r: Error)
        ensures
            r@ == self@,
    {
        Error { message: self.message.clone(), kind: self.kind }
    }

    /// The packaging error that an error of escalation becomes.
    pub fn from_run_error(e: run::Error) -> (r: Error)
        ensures
            r@ == (ErrorView {
                message: relabelled(run::kind_name(e.kind), e.message@),
                kind: ErrorKind::RunError,
            }),
    {
        let mut message = e.kind.name().to_owned();
        message.append(": ");
        message.append(e.message.as_str());
        Error { message, kind: ErrorKind::RunError }
    }

    /// The packaging error that an error in running a command becomes.
    pub fn from_executor_error(e: executor::Error) -> (r: Error)
        ensures
            r@ == (ErrorView {
                message: relabelled(executor::kind_name(e.kind), e.message@),
                kind: ErrorKind::ExecutorError,
            }),
    {
        let mut message = e.kind.name().to_owned();
        message.append(": ");
        message.append(e.message.as_str());
        Error { message, kind: ErrorKind::ExecutorError }
    }
}

/// An error of another part, named by its kind: the kind's name, a colon, a
/// space, and the message.
pub open spec fn relabelled(kind_name: Seq<char>, message: Seq<char>) -> Seq<char> {
    kind_name + ": "@ + message
}

/// The name by which an error kind is shown.
pub open spec fn kind_name(kind: ErrorKind) -> Seq<char> {
    match kind {
        ErrorKind::NotFound => "NotFound"@,
        ErrorKind::UnknownPackager => "UnknownPackager"@,
        ErrorKind::MetadataFileRead => "MetadataFileRead"@,
        ErrorKind::RunError => "RunError"@,
        ErrorKind::ExecutorError => "ExecutorError"@,
        ErrorKind::IO => "IO"@,
    }
}

impl ErrorKind {
    /// The name by which the kind is shown.
    pub fn name(&self) -> (r: &'static str)
        ensures
            r@ == kind_name(*self),
    {
        match self {
            ErrorKind::NotFound => "NotFound",
            ErrorKind::UnknownPackager => "UnknownPackager",
            ErrorKind::MetadataFileRead => "MetadataFileRead",
            ErrorKind::RunError => "RunError",
            ErrorKind::ExecutorError => "ExecutorError",
            ErrorKind::IO => "IO",
        }
    }
}

/// How an error is shown in debug output.
pub open spec fn error_debug(e: ErrorView) -> Seq<char> {
    "Error { message: "@ + debug_text(e.message) + ", kind: "@ + kind_name(e.kind) + " }"@
}

impl Error {
    /// The error as debug output shows it.
    pub fn debug(&self) -> (r: String)
        ensures
            r@ == error_debug(self@),
    {
        let mut r = "Error { message: ".to_owned();
        let q = debug_str(self.message.as_str());
        r.append(q.as_str());
        r.append(", kind: ");
        r.append(self.kind.name());
        r.append(" }");
        r
    }
}

/// What went wrong with a package manager.
#[derive(Debug, Clone, Copy, PartialEq, Eq, Structural)]
pub enum ErrorKind {
    NotFound,
    UnknownPackager,
    MetadataFileRead,
    RunError,
    ExecutorError,
    IO,
}

} // verus!
