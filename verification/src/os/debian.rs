use vstd::prelude::*;

use crate::conf::{Configuration, SuCommandView};
use crate::os::pkg::{
    self, names, package_views, sort_packages, sorted_by_name, PackageView, Package,
    PackagerVariant, Packages,
};
use crate::os::{Kind, OperatingSystem, OperatingSystemView};
use crate::run::{
    self, escalated, kind_name, Command, CommandView, Transaction, TransactionCommand,
    TransactionCommandStatus, TransactionCommandView,
};
use crate::text::{
    chars_of, contains_string, lines, lines_of, rows, same_chars, split, split_chars, split_once,
    split_once_chars, string_of_vec, strings, strs,
};

verus! {

/// Debian: a Debian system, with apt.
pub fn debian() -> (r: OperatingSystem)
    ensures
        r@ == (OperatingSystemView { kind: Kind::Debian, packager: pkg::Packager::Apt(apt()) }),
        r@.packager matches pkg::Packager::Apt(a) && a@ == PackagerVariant::Apt,
{
    OperatingSystem::new(Kind::Debian, pkg::Packager::Apt(Apt::apt()))
}

/// The apt package manager.
pub closed spec fn apt() -> Apt {
    Apt { variant: PackagerVariant::Apt }
}

/// The apt package manager of Debian.
#[derive(Debug, Clone, Copy, PartialEq, Eq, Structural)]
pub struct Apt {
    variant: PackagerVariant,
}

impl View for Apt {
    type V = PackagerVariant;

    closed spec fn view(&self) -> PackagerVariant {
        self.variant
    }
}

impl Default for Apt {
    fn default() -> (r: Apt)
        ensures
            r@ == PackagerVariant::Unknown,
    {
        Apt { variant: PackagerVariant::Unknown }
    }
}

/// What apt is asked to do to packages.
#[derive(Debug, Clone, Copy, PartialEq, Eq, Structural)]
pub enum Operation {
    Install,
    Uninstall,
}

/// The apt subcommand of an operation.
pub open spec fn operation_word(operation: Operation) -> Seq<char> {
    match operation {
        Operation::Install => "install"@,
        Operation::Uninstall => "remove"@,
    }
}

/// The operation that undoes another.
pub open spec fn undoing(operation: Operation) -> Operation {
    match operation {
        Operation::Install => Operation::Uninstall,
        Operation::Uninstall => Operation::Install,
    }
}

impl Operation {
    /// The apt subcommand of the operation.
    pub fn word(&self) -> (r: &'static str)
        ensures
            r@ == operation_word(*self),
    {
        match self {
            Operation::Install => "install",
            Operation::Uninstall => "remove",
        }
    }

    /// The operation that undoes this one.
    pub fn undoing(&self) -> (r: Operation)
        ensures
            r == undoing(*self),
    {
        match self {
            Operation::Install => Operation::Uninstall,
            Operation::Uninstall => Operation::Install,
        }
    }
}

/// The apt command line that applies `operation` to `packages`.
pub open spec fn apt_command(operation: Operation, packages: Seq<PackageView>) -> CommandView {
    CommandView {
        base: "apt"@,
        args: seq![operation_word(operation)] + names(packages),
        escalated: false,
    }
}

/// The packaging error that an error of escalation becomes.
pub open spec fn from_run_error(e: run::ErrorView) -> pkg::ErrorView {
    pkg::ErrorView {
        message: pkg::relabelled(kind_name(e.kind), e.message),
        kind: pkg::ErrorKind::RunError,
    }
}

/// What asking apt to apply `operation` to `packages` gives: nothing to do
/// for no packages, else one escalated command with the escalated command
/// that undoes it.
pub open spec fn haul_result(
    operation: Operation,
    packages: Seq<PackageView>,
    su: SuCommandView,
) -> Result<Seq<TransactionCommandView>, pkg::ErrorView> {
    if packages.len() == 0 {
        Ok(Seq::empty())
    } else {
        match escalated(apt_command(operation, packages), su) {
            Err(e) => Err(from_run_error(e)),
            Ok(run) => match escalated(apt_command(undoing(operation), packages), su) {
                Err(e) => Err(from_run_error(e)),
                Ok(rollback) => Ok(
                    seq![
                        TransactionCommandView {
                            run,
                            rollback,
                            status: TransactionCommandStatus::Pending,
                            errors: None,
                        },
                    ],
                ),
            },
        }
    }
}

/// Whether a result of a transaction matches the model.
pub open spec fn matches_model(
    r: Result<Transaction, pkg::Error>,
    model: Result<Seq<TransactionCommandView>, pkg::ErrorView>,
) -> bool {
    match r {
        Ok(t) => model == Ok::<Seq<TransactionCommandView>, pkg::ErrorView>(t@),
        Err(e) => model == Err::<Seq<TransactionCommandView>, pkg::ErrorView>(e@),
    }
}

/// The apt command line that applies `operation` to `packages`.
fn apt_command_line(operation: &Operation, packages: &[Package]) -> (r: Command)
    ensures
        r@ == apt_command(*operation, package_views(packages@)),
{
    let mut args: Vec<&str> = Vec::new();
    args.push(operation.word());
    let mut i: usize = 0;
    while i < packages.len()
        invariant
            i <= packages.len(),
            strs(args@) == seq![operation_word(*operation)] + names(package_views(packages@)).take(
                i as int,
            ),
        decreases packages.len() - i,
    {
        let name = packages[i].name();
        let ghost before = args@;
        args.push(name);
        assert(strs(args@) =~= strs(before).push(name@));
        assert(names(package_views(packages@)).take(i + 1) =~= names(package_views(packages@)).take(
            i as int,
        ).push(name@));
        i += 1;
    }
    assert(names(package_views(packages@)).take(packages.len() as int) =~= names(
        package_views(packages@),
    ));
    Command::new("apt", args.as_slice())
}

impl Apt {
    /// The apt package manager of Debian.
    pub fn apt() -> (r: Apt)
        ensures
            r == apt(),
            r@ == PackagerVariant::Apt,
    {
        Apt { variant: PackagerVariant::Apt }
    }

    /// The transaction that applies `operation` to `packages` with apt.
    pub fn haul(operation: &Operation, packages: &[Package], config: &Configuration) -> (r: Result<
        Transaction,
        pkg::Error,
    >)
        ensures
            matches_model(r, haul_result(*operation, package_views(packages@), config@.su_command)),
    {
        if packages.len() == 0 {
            return Ok(Transaction::default());
        }
        let rollback_operation = operation.undoing();
        let run_line = apt_command_line(operation, packages);
        let rollback_line = apt_command_line(&rollback_operation, packages);
        let run = match run_line.escalate(config) {
            Ok(c) => c,
            Err(e) => {
                return Err(pkg::Error::from_run_error(e));
            },
        };
        let rollback = match rollback_line.escalate(config) {
            Ok(c) => c,
            Err(e) => {
                return Err(pkg::Error::from_run_error(e));
            },
        };
        let command = TransactionCommand::new(run, rollback);
        Ok(Transaction::single(&command))
    }
}

impl Packages for Apt {
    fn install(&self, packages: &[Package], config: &Configuration) -> (r: Result<
        Transaction,
        pkg::Error,
    >)
        ensures
            matches_model(
                r,
                haul_result(Operation::Install, package_views(packages@), config@.su_command),
            ),
    {
        Apt::haul(&Operation::Install, packages, config)
    }

    fn uninstall(&self, packages: &[Package], config: &Configuration) -> (r: Result<
        Transaction,
        pkg::Error,
    >)
        ensures
            matches_model(
                r,
                haul_result(Operation::Uninstall, package_views(packages@), config@.su_command),
            ),
    {
        Apt::haul(&Operation::Uninstall, packages, config)
    }

    fn variant(&self) -> (r: &PackagerVariant)
        ensures
            *r == self@,
    {
        &self.variant
    }
}

/// The name of the package on a line of the installed-package listing
/// (`name status`), where the status says it is installed.
pub open spec fn installed_name(line: Seq<char>) -> Option<Seq<char>> {
    match split_once(line, ' ') {
        Some((name, status)) => if status == "install ok installed"@ {
            Some(name)
        } else {
            None
        },
        None => None,
    }
}

/// The packages installed by hand according to the listing `lines`: the
/// installed ones whose names are not among `auto`, in the order of the lines.
pub open spec fn manual_candidates(lines: Seq<Seq<char>>, auto: Seq<Seq<char>>) -> Seq<PackageView>
    decreases lines.len(),
{
    if lines.len() == 0 {
        Seq::empty()
    } else {
        let rest = manual_candidates(lines.drop_last(), auto);
        match installed_name(lines.last()) {
            Some(name) => if auto.contains(name) {
                rest
            } else {
                rest.push(PackageView { name, manual: Some(true) })
            },
            None => rest,
        }
    }
}

/// Lines that are not empty, in order.
pub open spec fn non_empty_lines(ls: Seq<Seq<char>>) -> Seq<Seq<char>>
    decreases ls.len(),
{
    if ls.len() == 0 {
        ls
    } else if ls.last().len() == 0 {
        non_empty_lines(ls.drop_last())
    } else {
        non_empty_lines(ls.drop_last()).push(ls.last())
    }
}

/// The name of an automatically installed package that a record of the
/// extended states names: its first line reads `Package: name` and its
/// third `Auto-Installed: 1` (words split at single spaces).
pub open spec fn auto_entry(name_line: Seq<char>, auto_line: Seq<char>) -> Option<Seq<char>> {
    let np = split(name_line, ' ');
    let ap = split(auto_line, ' ');
    if np[0] == "Package:"@ && np.len() > 1 && ap[0] == "Auto-Installed:"@ && ap.len() > 1 && ap[1]
        == "1"@ {
        Some(np[1])
    } else {
        None
    }
}

/// The automatically installed packages of records of three lines each (a
/// shorter remainder is ignored), in order.
pub open spec fn auto_packages(ls: Seq<Seq<char>>) -> Seq<PackageView>
    decreases ls.len(),
{
    if ls.len() < 3 {
        Seq::empty()
    } else {
        let rest = auto_packages(ls.skip(3));
        match auto_entry(ls[0], ls[2]) {
            Some(name) => seq![PackageView { name, manual: Some(false) }] + rest,
            None => rest,
        }
    }
}

/// One record of three lines, then the rest.
pub proof fn lemma_auto_step(lv: Seq<Seq<char>>, k: int)
    requires
        0 <= k,
        k + 3 <= lv.len(),
    ensures
        auto_packages(lv.skip(k)) == match auto_entry(lv[k], lv[k + 2]) {
            Some(name) => seq![PackageView { name, manual: Some(false) }],
            None => Seq::<PackageView>::empty(),
        } + auto_packages(lv.skip(k + 3)),
{
    let chunk = lv.skip(k);
    assert(chunk[0] == lv[k]);
    assert(chunk[2] == lv[k + 2]);
    assert(chunk.skip(3) =~= lv.skip(k + 3));
    match auto_entry(lv[k], lv[k + 2]) {
        Some(name) => {},
        None => {
            assert(Seq::<PackageView>::empty() + auto_packages(lv.skip(k + 3)) =~= auto_packages(
                lv.skip(k + 3),
            ));
        },
    }
}

impl Apt {
    /// The packages installed by hand, from the listing `raw_all` of all
    /// packages and their status and the names `auto_set` of the packages
    /// installed automatically: sorted by name.
    pub fn determine_manual(raw_all: &str, auto_set: &Vec<String>) -> (r: Vec<Package>)
        ensures
            sorted_by_name(package_views(r@)),
            package_views(r@).to_multiset() == manual_candidates(
                lines(raw_all@),
                strings(auto_set@),
            ).to_multiset(),
    {
        let text = chars_of(raw_all);
        let ls = lines_of(&text);
        let ghost lv = lines(raw_all@);
        let installed = chars_of("install ok installed");
        let mut found: Vec<Package> = Vec::new();
        let mut i: usize = 0;
        while i < ls.len()
            invariant
                i <= ls.len(),
                rows(ls@) == lv,
                installed@ == "install ok installed"@,
                package_views(found@) == manual_candidates(lv.take(i as int), strings(auto_set@)),
            decreases ls.len() - i,
        {
            assert(lv.take(i + 1).drop_last() == lv.take(i as int));
            assert(lv[i as int] == ls@[i as int]@);
            match split_once_chars(&ls[i], ' ') {
                Some((name, status)) => {
                    if same_chars(&status, &installed) && !contains_string(auto_set, &name) {
                        let n = string_of_vec(name);
                        let p = Package::new_with_manual(n.as_str(), true);
                        let ghost before = found@;
                        found.push(p);
                        assert(package_views(found@) =~= package_views(before).push(p@));
                    }
                },
                None => {},
            }
            i += 1;
        }
        assert(lv.take(ls.len() as int) == lv);
        sort_packages(found)
    }

    /// The packages installed automatically, from the contents of apt's
    /// extended states: sorted by name.
    pub fn determine_auto(extended_states: &str) -> (r: Vec<Package>)
        ensures
            sorted_by_name(package_views(r@)),
            package_views(r@).to_multiset() == auto_packages(
                non_empty_lines(lines(extended_states@)),
            ).to_multiset(),
    {
        let text = chars_of(extended_states);
        let all = lines_of(&text);
        let ghost av = lines(extended_states@);
        let mut ls: Vec<Vec<char>> = Vec::new();
        let mut i: usize = 0;
        while i < all.len()
            invariant
                i <= all.len(),
                rows(all@) == av,
                rows(ls@) == non_empty_lines(av.take(i as int)),
            decreases all.len() - i,
        {
            assert(av.take(i + 1).drop_last() == av.take(i as int));
            if all[i].len() > 0 {
                let l = crate::text::copy_chars(&all[i]);
                let ghost before = ls@;
                ls.push(l);
                assert(rows(ls@) =~= rows(before).push(l@));
            }
            i += 1;
        }
        assert(av.take(all.len() as int) == av);
        let ghost lv = rows(ls@);
        let package_key = chars_of("Package:");
        let auto_key = chars_of("Auto-Installed:");
        let one = chars_of("1");
        let mut found: Vec<Package> = Vec::new();
        let mut k: usize = 0;
        assert(lv.skip(0) == lv);
        while ls.len() - k >= 3
            invariant
                k <= ls.len(),
                lv == rows(ls@),
                package_key@ == "Package:"@,
                auto_key@ == "Auto-Installed:"@,
                one@ == "1"@,
                package_views(found@) + auto_packages(lv.skip(k as int)) == auto_packages(lv),
            decreases ls.len() - k,
        {
            proof {
                lemma_auto_step(lv, k as int);
            }
            let np = split_chars(&ls[k], ' ');
            let ap = split_chars(&ls[k + 2], ' ');
            assert(rows(np@).len() == np@.len());
            assert(rows(ap@).len() == ap@.len());
            assert(rows(np@)[0] == np@[0]@);
            assert(rows(ap@)[0] == ap@[0]@);
            let ghost before = found@;
            if same_chars(&np[0], &package_key) && np.len() > 1 && same_chars(&ap[0], &auto_key)
                && ap.len() > 1 && same_chars(&ap[1], &one) {
                assert(rows(np@)[1] == np@[1]@);
                let n = string_of_vec(crate::text::copy_chars(&np[1]));
                let p = Package::new_with_manual(n.as_str(), false);
                found.push(p);
                assert(package_views(found@) =~= package_views(before).push(p@));
            }
            assert(package_views(found@) + auto_packages(lv.skip(k + 3)) =~= package_views(before)
                + auto_packages(lv.skip(k as int)));
            k += 3;
        }
        assert(auto_packages(lv.skip(k as int)) == Seq::<PackageView>::empty());
        assert(package_views(found@) =~= auto_packages(lv));
        sort_packages(found)
    }
}

/// What undoes an install is what an uninstall runs, and the other way
/// round: the two transactions apt gives for the same packages mirror each
/// other.
pub proof fn lemma_rollback_mirrors(packages: Seq<PackageView>, su: SuCommandView)
    requires
        packages.len() > 0,
        haul_result(Operation::Install, packages, su) is Ok,
        haul_result(Operation::Uninstall, packages, su) is Ok,
    ensures
        haul_result(Operation::Install, packages, su)->Ok_0.len() == 1,
        haul_result(Operation::Uninstall, packages, su)->Ok_0.len() == 1,
        haul_result(Operation::Install, packages, su)->Ok_0[0].rollback == haul_result(
            Operation::Uninstall,
            packages,
            su,
        )->Ok_0[0].run,
        haul_result(Operation::Uninstall, packages, su)->Ok_0[0].rollback == haul_result(
            Operation::Install,
            packages,
            su,
        )->Ok_0[0].run,
{
}

/// Every package taken to be installed by hand is named on an installed
/// line of the listing, is not among the automatically installed ones, and
/// is marked as installed by hand.
pub proof fn lemma_manual_packages(lines: Seq<Seq<char>>, auto: Seq<Seq<char>>, p: PackageView)
    requires
        manual_candidates(lines, auto).contains(p),
    ensures
        !auto.contains(p.name),
        p.manual == Some(true),
        exists|i: int| 0 <= i < lines.len() && installed_name(#[trigger] lines[i]) == Some(p.name),
    decreases lines.len(),
{
    let rest = manual_candidates(lines.drop_last(), auto);
    if rest.contains(p) {
        lemma_manual_packages(lines.drop_last(), auto, p);
        let i = choose|i: int| 0 <= i < lines.drop_last().len() && installed_name(
            #[trigger] lines.drop_last()[i],
        ) == Some(p.name);
        assert(lines[i] == lines.drop_last()[i]);
    } else {
        assert(installed_name(lines[lines.len() - 1]) == Some(p.name));
    }
}

/// With no automatically installed packages, every installed line of the
/// listing gives a package installed by hand.
pub proof fn lemma_manual_without_auto(lines: Seq<Seq<char>>, i: int, name: Seq<char>)
    requires
        0 <= i < lines.len(),
        installed_name(lines[i]) == Some(name),
    ensures
        manual_candidates(lines, Seq::empty()).contains(PackageView { name, manual: Some(true) }),
    decreases lines.len(),
{
    let rest = manual_candidates(lines.drop_last(), Seq::empty());
    if i < lines.len() - 1 {
        assert(lines.drop_last()[i] == lines[i]);
        lemma_manual_without_auto(lines.drop_last(), i, name);
        let k = choose|k: int| 0 <= k < rest.len() && rest[k] == PackageView { name, manual: Some(true) };
        assert(manual_candidates(lines, Seq::empty())[k] == rest[k]);
    } else {
        let all = manual_candidates(lines, Seq::empty());
        assert(all[all.len() - 1] == PackageView { name, manual: Some(true) });
    }
}

/// An empty listing gives no package installed by hand.
pub proof fn lemma_manual_of_nothing(auto: Seq<Seq<char>>)
    ensures
        manual_candidates(lines(Seq::empty()), auto) == Seq::<PackageView>::empty(),
{
    assert(crate::text::split_acc(Seq::<char>::empty(), '\n').1 == Seq::<char>::empty());
    assert(lines(Seq::empty()) =~= Seq::<Seq<char>>::empty());
}

/// Every package read from the extended states is marked as installed
/// automatically.
pub proof fn lemma_auto_packages_not_manual(ls: Seq<Seq<char>>, p: PackageView)
    requires
        auto_packages(ls).contains(p),
    ensures
        p.manual == Some(false),
    decreases ls.len(),
{
    if ls.len() >= 3 {
        let rest = auto_packages(ls.skip(3));
        if rest.contains(p) {
            lemma_auto_packages_not_manual(ls.skip(3), p);
        } else {
            let all = auto_packages(ls);
            let k = choose|k: int| 0 <= k < all.len() && all[k] == p;
            match auto_entry(ls[0], ls[2]) {
                Some(name) => {
                    if k > 0 {
                        assert(all[k] == rest[k - 1]);
                    }
                },
                None => {},
            }
        }
    }
}

} // verus!
