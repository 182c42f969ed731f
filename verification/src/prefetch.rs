//! Fetching the packages of an environment before it is mounted.
//!
//! A sidecar looks its packages up in the cache. Whoever starts one fetches them first, where the
//! user can watch, so that the sidecar is up within seconds. The largest packages come first, so
//! that long downloads start early.

use vstd::prelude::*;

use crate::protocol::Reply;
use crate::text::{concat2, concat3};

verus! {

/// How many packages are fetched at the same time.
pub const CONCURRENT_FETCHES: usize = 16;

// ---------------------------------------------------------------------------
// Lock files
// ---------------------------------------------------------------------------

/// A lock file.
#[verifier::external_type_specification]
#[verifier::external_body]
pub struct ExLockFile(rattler_lock::LockFile);

/// An environment of a lock file.
#[verifier::external_type_specification]
#[verifier::external_body]
pub struct ExEnvironment<'lock>(rattler_lock::Environment<'lock>);

/// A platform that packages are built for.
#[verifier::external_type_specification]
#[verifier::external_body]
pub struct ExPlatform(rattler_conda_types::Platform);

/// What matters of a locked package.
#[derive(Clone, Copy, Debug, PartialEq, Eq, Structural)]
pub enum LockedPackage {
    /// A conda package that is built, of this size if that is known, and whether it is located by
    /// a URL.
    CondaBinary { size: Option<u64>, has_url: bool },
    /// A conda package that is to be built from source.
    CondaSource,
    /// A package of PyPI.
    Pypi,
}

/// The environments that a lock file holds, by name, and the packages of each, by platform, in the
/// order in which the lock file lists them.
pub uninterp spec fn locked_environments(lock_file: rattler_lock::LockFile) -> Map<
    Seq<char>,
    Map<rattler_conda_types::Platform, Seq<LockedPackage>>,
>;

/// The packages that an environment of a lock file holds, by platform.
pub uninterp spec fn locked_packages(environment: rattler_lock::Environment<'_>) -> Map<
    rattler_conda_types::Platform,
    Seq<LockedPackage>,
>;

/// Looks an environment up by `rattler_lock::LockFile::environment`.
///
/// Trusted: it is found exactly if the lock file holds an environment of that name, and then it
/// has the packages that the lock file lists for it.
#[verifier::external_body]
fn find_environment<'lock>(
    lock_file: &'lock rattler_lock::LockFile,
    name: &str,
) -> (environment: Option<rattler_lock::Environment<'lock>>)
    ensures
        environment is Some <==> locked_environments(*lock_file).contains_key(name@),
        environment matches Some(found) ==> locked_packages(found) == locked_environments(
            *lock_file,
        )[name@],
{
    lock_file.environment(name)
}

/// Lists the packages of an environment by `rattler_lock::Environment::packages`.
///
/// Trusted: there is a list exactly if the environment is locked for the platform, and it has its
/// packages in their order. A package is a binary conda package if `as_binary_conda` says so, one
/// of PyPI if `as_pypi` says so, and a conda package to be built from source otherwise; the size of
/// a binary one is that of its record, and it has a URL if `as_url` finds one.
#[verifier::external_body]
fn packages_for(
    environment: &rattler_lock::Environment<'_>,
    platform: rattler_conda_types::Platform,
) -> (packages: Option<Vec<LockedPackage>>)
    ensures
        packages is Some <==> locked_packages(*environment).contains_key(platform),
        packages matches Some(list) ==> list@ == locked_packages(*environment)[platform],
{
    let packages = environment.packages(platform)?;
    let convert = |package: rattler_lock::LockedPackageRef<'_>| match (
        package.as_binary_conda(),
        package.as_pypi(),
    ) {
        (Some(data), _) => LockedPackage::CondaBinary {
            size: data.package_record.size,
            has_url: data.location.as_url().is_some(),
        },
        (None, Some(_)) => LockedPackage::Pypi,
        (None, None) => LockedPackage::CondaSource,
    };
    Some(packages.map(convert).collect())
}

// ---------------------------------------------------------------------------
// The order
// ---------------------------------------------------------------------------

/// The size by which a package is put in order; one that is unknown counts as nothing.
pub open spec fn size_of(package: LockedPackage) -> u64 {
    match package {
        LockedPackage::CondaBinary { size: Some(size), has_url } => size,
        _ => 0,
    }
}

/// Whether the package at `i` is fetched before the one at `j`: it is larger, or, if both are as
/// large, it is listed first.
pub open spec fn precedes(packages: Seq<LockedPackage>, i: usize, j: usize) -> bool {
    size_of(packages[i as int]) > size_of(packages[j as int]) || (size_of(packages[i as int])
        == size_of(packages[j as int]) && i < j)
}

/// Whether `order` lists the binary conda packages among `packages`, each by its place, in the
/// order in which they are fetched.
pub open spec fn is_fetch_order(packages: Seq<LockedPackage>, order: Seq<usize>) -> bool {
    &&& forall|k: int|
        0 <= k < order.len() ==> #[trigger] order[k] < packages.len()
            && packages[order[k] as int] is CondaBinary
    &&& forall|i: usize|
        i < packages.len() && #[trigger] packages[i as int] is CondaBinary ==> order.contains(i)
    &&& forall|k: int, l: int|
        0 <= k < l < order.len() ==> precedes(packages, #[trigger] order[k], #[trigger] order[l])
}

/// Whether a package is located by a URL.
pub open spec fn located_by_url(package: LockedPackage) -> bool {
    package matches LockedPackage::CondaBinary { size, has_url } && has_url
}

fn size_for_order(package: LockedPackage) -> (size: u64)
    ensures
        size == size_of(package),
{
    match package {
        LockedPackage::CondaBinary { size: Some(size), .. } => size,
        _ => 0,
    }
}

/// Puts the binary conda packages of a list in the order in which they are fetched.
///
/// The order holds the places of the packages in the list.
pub fn fetch_order(packages: &Vec<LockedPackage>) -> (order: Vec<usize>)
    ensures
        is_fetch_order(packages@, order@),
{
    let mut order: Vec<usize> = Vec::new();
    let mut i: usize = 0;
    while i < packages.len()
        invariant
            i <= packages.len(),
            is_fetch_order(packages@.take(i as int), order@),
        decreases packages.len() - i,
    {
        let ghost before = packages@.take(i as int);
        let ghost after = packages@.take(i + 1);
        let ghost old_order = order@;
        assert(forall|j: int| 0 <= j < i ==> before[j] == after[j]);
        assert(after[i as int] == packages@[i as int]);
        match packages[i] {
            LockedPackage::CondaBinary { .. } => {
                let size = size_for_order(packages[i]);
                let mut place: usize = 0;
                while place < order.len() && size_for_order(packages[order[place]]) >= size
                    invariant
                        i < packages.len(),
                        place <= order.len(),
                        order@ == old_order,
                        before == packages@.take(i as int),
                        is_fetch_order(before, old_order),
                        size == size_of(packages@[i as int]),
                        forall|k: int|
                            0 <= k < place ==> size_of(packages@[#[trigger] old_order[k] as int])
                                >= size,
                        forall|k: int| 0 <= k < order.len() ==> #[trigger] order@[k] < i,
                    decreases order.len() - place,
                {
                    place = place + 1;
                }
                order.insert(place, i);
                proof {
                    lemma_insert_keeps_fetch_order(
                        packages@,
                        i,
                        old_order,
                        place as int,
                    );
                }
            },
            LockedPackage::CondaSource | LockedPackage::Pypi => {
                assert forall|j: usize|
                    j < after.len() && #[trigger] after[j as int] is CondaBinary implies
                    order@.contains(j) by {
                    assert(before[j as int] is CondaBinary);
                }
            },
        }
        i = i + 1;
    }
    assert(packages@.take(i as int) =~= packages@);
    order
}

/// Putting the place of the next package behind all that are at least as large keeps the order.
proof fn lemma_insert_keeps_fetch_order(
    packages: Seq<LockedPackage>,
    i: usize,
    order: Seq<usize>,
    place: int,
)
    requires
        i < packages.len(),
        packages[i as int] is CondaBinary,
        is_fetch_order(packages.take(i as int), order),
        0 <= place <= order.len(),
        forall|k: int|
            0 <= k < place ==> size_of(packages[#[trigger] order[k] as int]) >= size_of(
                packages[i as int],
            ),
        place < order.len() ==> size_of(packages[order[place] as int]) < size_of(
            packages[i as int],
        ),
    ensures
        is_fetch_order(packages.take(i + 1), order.insert(place, i)),
{
    let before = packages.take(i as int);
    let after = packages.take(i + 1);
    let longer = order.insert(place, i);
    assert forall|k: int| 0 <= k < longer.len() implies #[trigger] longer[k] < after.len()
        && after[longer[k] as int] is CondaBinary by {
        if k < place {
            assert(longer[k] == order[k]);
            assert(before[order[k] as int] is CondaBinary);
        } else if k > place {
            assert(longer[k] == order[k - 1]);
            assert(before[order[k - 1] as int] is CondaBinary);
        }
    }
    assert forall|j: usize| j < after.len() && #[trigger] after[j as int] is CondaBinary implies
        longer.contains(j) by {
        if j == i {
            assert(longer[place] == i);
        } else {
            assert(before[j as int] is CondaBinary);
            assert(order.contains(j));
            let k = choose|k: int| 0 <= k < order.len() && order[k] == j;
            if k < place {
                assert(longer[k] == j);
            } else {
                assert(longer[k + 1] == j);
            }
        }
    }
    assert forall|k: int, l: int| 0 <= k < l < longer.len() implies precedes(
        after,
        #[trigger] longer[k],
        #[trigger] longer[l],
    ) by {
        if l < place {
            assert(precedes(before, order[k], order[l]));
        } else if l == place {
            assert(longer[k] == order[k]);
            assert(order[k] < before.len());
        } else if k < place {
            assert(precedes(before, order[k], order[l - 1]));
        } else if k == place {
            assert(longer[l] == order[l - 1]);
            if l - 1 > place {
                assert(precedes(before, order[place], order[l - 1]));
            }
        } else {
            assert(precedes(before, order[k - 1], order[l - 1]));
        }
    }
}

// ---------------------------------------------------------------------------
// The plan
// ---------------------------------------------------------------------------

/// Why packages could not be fetched.
#[derive(Debug, PartialEq, Eq)]
pub enum PrefetchError {
    /// The lock file does not hold the environment of this name.
    EnvironmentNotFound(String),
    /// No turn to fetch was to be had.
    SemaphoreClosed(String),
    /// A package is not located by a URL.
    NoUrl,
    /// A package could not be fetched.
    Fetch(String),
    /// A task broke off.
    Task(String),
}

impl PrefetchError {
    /// The words of the error.
    pub open spec fn words(self) -> Seq<char> {
        match self {
            PrefetchError::EnvironmentNotFound(name) => "environment '"@ + name@
                + "' not found in lock file"@,
            PrefetchError::SemaphoreClosed(text) => "concurrency semaphore closed: "@ + text@,
            PrefetchError::NoUrl => "package has no URL"@,
            PrefetchError::Fetch(text) => "failed to prefetch package: "@ + text@,
            PrefetchError::Task(text) => "prefetch task failed: "@ + text@,
        }
    }

    /// Words the error for a user.
    pub fn message(&self) -> (message: String)
        ensures
            message@ == self.words(),
    {
        match self {
            PrefetchError::EnvironmentNotFound(name) => concat3(
                "environment '",
                name.as_str(),
                "' not found in lock file",
            ),
            PrefetchError::SemaphoreClosed(text) => concat2(
                "concurrency semaphore closed: ",
                text.as_str(),
            ),
            PrefetchError::NoUrl => String::from_str("package has no URL"),
            PrefetchError::Fetch(text) => concat2("failed to prefetch package: ", text.as_str()),
            PrefetchError::Task(text) => concat2("prefetch task failed: ", text.as_str()),
        }
    }
}

/// The packages that an environment holds for a platform; none, if it is not locked for it.
pub open spec fn packages_on(
    environment: Map<rattler_conda_types::Platform, Seq<LockedPackage>>,
    platform: rattler_conda_types::Platform,
) -> Seq<LockedPackage> {
    if environment.contains_key(platform) {
        environment[platform]
    } else {
        Seq::empty()
    }
}

/// The packages that the environment `name` holds for a platform, if there is such an environment.
pub open spec fn packages_of(
    environments: Map<Seq<char>, Map<rattler_conda_types::Platform, Seq<LockedPackage>>>,
    name: Seq<char>,
    platform: rattler_conda_types::Platform,
) -> Option<Seq<LockedPackage>> {
    if environments.contains_key(name) {
        Some(packages_on(environments[name], platform))
    } else {
        None
    }
}

/// What is to be fetched.
#[derive(Debug, PartialEq, Eq)]
pub struct PrefetchPlan {
    /// The packages of the environment, in the order in which the lock file lists them.
    pub packages: Vec<LockedPackage>,
    /// The places of those that are to be fetched, in the order in which they are fetched.
    pub order: Vec<usize>,
}

/// Plans the fetching of the packages of an environment for a platform.
///
/// The plan is empty if there is nothing to fetch, also where the environment is not locked for
/// the platform.
pub fn prefetch_packages_for_mount(
    lock_file: &rattler_lock::LockFile,
    environment_name: &str,
    platform: rattler_conda_types::Platform,
) -> (plan: Result<PrefetchPlan, PrefetchError>)
    ensures
        plan is Ok <==> locked_environments(*lock_file).contains_key(environment_name@),
        match plan {
            Ok(plan) => packages_of(
                locked_environments(*lock_file),
                environment_name@,
                platform,
            ) == Some(plan.packages@),
            Err(_) => packages_of(
                locked_environments(*lock_file),
                environment_name@,
                platform,
            ) is None,
        },
        plan matches Ok(plan) ==> {
            &&& plan.packages@ == packages_on(
                locked_environments(*lock_file)[environment_name@],
                platform,
            )
            &&& is_fetch_order(plan.packages@, plan.order@)
        },
        plan matches Err(error) ==> (error matches PrefetchError::EnvironmentNotFound(name)
            && name@ == environment_name@),
{
    let environment = match find_environment(lock_file, environment_name) {
        Some(environment) => environment,
        None => {
            return Err(PrefetchError::EnvironmentNotFound(String::from_str(environment_name)));
        },
    };
    let packages = match packages_for(&environment, platform) {
        Some(packages) => packages,
        None => Vec::new(),
    };
    let order = fetch_order(&packages);
    Ok(PrefetchPlan { packages, order })
}

// ---------------------------------------------------------------------------
// Fetching
// ---------------------------------------------------------------------------

/// What the task that fetches one package has to do next.
#[derive(Debug, PartialEq, Eq)]
pub enum FetchStep {
    /// Wait for a turn; [`CONCURRENT_FETCHES`] tasks have theirs at the same time.
    AcquirePermit,
    /// Fetch the package into the cache, from its URL.
    Fetch,
    /// Nothing: the package is in the cache.
    Fetched,
    /// Nothing: the package could not be fetched.
    Failed(PrefetchError),
}

impl FetchStep {
    /// What is to be done for `package` after `reply`. A reply that does not answer what was asked
    /// for changes nothing.
    pub open spec fn after(self, package: LockedPackage, reply: Reply) -> FetchStep {
        match (self, reply) {
            (FetchStep::AcquirePermit, Reply::Done) => if located_by_url(package) {
                FetchStep::Fetch
            } else {
                FetchStep::Failed(PrefetchError::NoUrl)
            },
            (FetchStep::AcquirePermit, Reply::Failed { code, text }) => FetchStep::Failed(
                PrefetchError::SemaphoreClosed(text),
            ),
            (FetchStep::Fetch, Reply::Done) => FetchStep::Fetched,
            (FetchStep::Fetch, Reply::Failed { code, text }) => FetchStep::Failed(
                PrefetchError::Fetch(text),
            ),
            (step, _) => step,
        }
    }

    /// Takes note of what came of the step that was asked for.
    pub fn next(self, package: LockedPackage, reply: Reply) -> (step: FetchStep)
        ensures
            step == self.after(package, reply),
    {
        let has_url = match package {
            LockedPackage::CondaBinary { has_url, .. } => has_url,
            LockedPackage::CondaSource | LockedPackage::Pypi => false,
        };
        match (self, reply) {
            (FetchStep::AcquirePermit, Reply::Done) => if has_url {
                FetchStep::Fetch
            } else {
                FetchStep::Failed(PrefetchError::NoUrl)
            },
            (FetchStep::AcquirePermit, Reply::Failed { text, .. }) => FetchStep::Failed(
                PrefetchError::SemaphoreClosed(text),
            ),
            (FetchStep::Fetch, Reply::Done) => FetchStep::Fetched,
            (FetchStep::Fetch, Reply::Failed { text, .. }) => FetchStep::Failed(
                PrefetchError::Fetch(text),
            ),
            (step, _) => step,
        }
    }
}

/// What is heard of the tasks that fetch packages.
#[derive(Debug, PartialEq, Eq)]
pub enum TaskReport {
    /// A task ended; its package is in the cache.
    Fetched,
    /// A task ended; its package could not be fetched.
    Failed(PrefetchError),
    /// A task broke off.
    Broken(String),
    /// There is no task left.
    Drained,
}

/// How far the fetching of packages has come.
#[derive(Debug, PartialEq, Eq)]
pub enum Prefetch {
    /// So many packages are in the cache; wait for the next task to end.
    Waiting { completed: usize },
    /// All packages are in the cache.
    Complete,
    /// A package could not be fetched; the other tasks are given up.
    Failed(PrefetchError),
}

impl Prefetch {
    /// How far it has come after `report`, out of `total` packages. More tasks than there are
    /// packages do not end.
    pub open spec fn after(self, total: usize, report: TaskReport) -> Prefetch {
        match (self, report) {
            (Prefetch::Waiting { completed }, TaskReport::Fetched) => if completed < total {
                Prefetch::Waiting { completed: (completed + 1) as usize }
            } else {
                Prefetch::Waiting { completed }
            },
            (Prefetch::Waiting { completed }, TaskReport::Failed(error)) => Prefetch::Failed(error),
            (Prefetch::Waiting { completed }, TaskReport::Broken(text)) => Prefetch::Failed(
                PrefetchError::Task(text),
            ),
            (Prefetch::Waiting { completed }, TaskReport::Drained) => Prefetch::Complete,
            (state, _) => state,
        }
    }

    /// Takes note of a report.
    pub fn next(self, total: usize, report: TaskReport) -> (state: Prefetch)
        ensures
            state == self.after(total, report),
    {
        match (self, report) {
            (Prefetch::Waiting { completed }, TaskReport::Fetched) => if completed < total {
                Prefetch::Waiting { completed: completed + 1 }
            } else {
                Prefetch::Waiting { completed }
            },
            (Prefetch::Waiting { .. }, TaskReport::Failed(error)) => Prefetch::Failed(error),
            (Prefetch::Waiting { .. }, TaskReport::Broken(text)) => Prefetch::Failed(
                PrefetchError::Task(text),
            ),
            (Prefetch::Waiting { .. }, TaskReport::Drained) => Prefetch::Complete,
            (state, _) => state,
        }
    }
}

// ---------------------------------------------------------------------------
// Laws
// ---------------------------------------------------------------------------

/// Two orders of the same packages are the same up to any place.
proof fn lemma_fetch_orders_agree(
    packages: Seq<LockedPackage>,
    a: Seq<usize>,
    b: Seq<usize>,
    n: int,
)
    requires
        is_fetch_order(packages, a),
        is_fetch_order(packages, b),
        0 <= n <= a.len(),
        n <= b.len(),
    ensures
        forall|k: int| 0 <= k < n ==> a[k] == b[k],
    decreases n,
{
    if n > 0 {
        lemma_fetch_orders_agree(packages, a, b, n - 1);
        let x = a[n - 1];
        let y = b[n - 1];
        assert(packages[x as int] is CondaBinary);
        assert(packages[y as int] is CondaBinary);
        assert(b.contains(x));
        assert(a.contains(y));
        let k = choose|k: int| 0 <= k < b.len() && b[k] == x;
        let l = choose|l: int| 0 <= l < a.len() && a[l] == y;
        if k < n - 1 {
            assert(precedes(packages, a[k], a[n - 1]));
        }
        if l < n - 1 {
            assert(precedes(packages, b[l], b[n - 1]));
        }
        if x != y {
            assert(precedes(packages, b[n - 1], b[k]));
            assert(precedes(packages, a[n - 1], a[l]));
        }
    }
}

/// The order in which packages are fetched is determined by the list of the packages: sorting by
/// size, with packages of the same size left in the order of the list.
pub proof fn law_the_fetch_order_is_determined(
    packages: Seq<LockedPackage>,
    a: Seq<usize>,
    b: Seq<usize>,
)
    requires
        is_fetch_order(packages, a),
        is_fetch_order(packages, b),
    ensures
        a == b,
{
    if a.len() > b.len() {
        lemma_fetch_order_lengths(packages, b, a);
    }
    if b.len() > a.len() {
        lemma_fetch_order_lengths(packages, a, b);
    }
    lemma_fetch_orders_agree(packages, a, b, a.len() as int);
    assert(a =~= b);
}

/// No order of the same packages is longer than another.
proof fn lemma_fetch_order_lengths(
    packages: Seq<LockedPackage>,
    short: Seq<usize>,
    long: Seq<usize>,
)
    requires
        is_fetch_order(packages, short),
        is_fetch_order(packages, long),
    ensures
        long.len() <= short.len(),
{
    if long.len() > short.len() {
        let n = short.len() as int;
        lemma_fetch_orders_agree(packages, short, long, n);
        assert(packages[long[n] as int] is CondaBinary);
        assert(short.contains(long[n]));
        let k = choose|k: int| 0 <= k < short.len() && short[k] == long[n];
        assert(precedes(packages, long[k], long[n]));
    }
}

/// Every binary conda package is fetched, and it is fetched once; packages that are built from
/// source and packages of PyPI are not fetched.
pub proof fn law_every_package_is_fetched_once(packages: Seq<LockedPackage>, order: Seq<usize>)
    requires
        is_fetch_order(packages, order),
    ensures
        forall|i: usize|
            i < packages.len() ==> (#[trigger] order.contains(i)
                <==> packages[i as int] is CondaBinary),
        forall|i: usize|
            i < packages.len() && (packages[i as int] is CondaSource || packages[i as int] is Pypi)
                ==> !#[trigger] order.contains(i),
        order.no_duplicates(),
{
    assert forall|i: usize| i < packages.len() implies (#[trigger] order.contains(i)
        <==> packages[i as int] is CondaBinary) by {
        if order.contains(i) {
            let k = choose|k: int| 0 <= k < order.len() && order[k] == i;
            assert(packages[order[k] as int] is CondaBinary);
        }
    }
    assert forall|k: int, l: int| 0 <= k < order.len() && 0 <= l < order.len() && k != l implies
        order[k] != order[l] by {
        if k < l {
            assert(precedes(packages, order[k], order[l]));
        } else {
            assert(precedes(packages, order[l], order[k]));
        }
    }
}

/// How far the fetching of `total` packages has come after the reports `reports`.
pub open spec fn prefetch_after(total: usize, reports: Seq<TaskReport>) -> Prefetch
    decreases reports.len(),
{
    if reports.len() == 0 {
        Prefetch::Waiting { completed: 0 }
    } else {
        prefetch_after(total, reports.drop_last()).after(total, reports.last())
    }
}

/// The first of the reports `reports` that says something else than that a package was fetched.
pub open spec fn first_other_report(reports: Seq<TaskReport>) -> Option<TaskReport>
    decreases reports.len(),
{
    if reports.len() == 0 {
        None
    } else {
        match first_other_report(reports.drop_last()) {
            Some(report) => Some(report),
            None => if reports.last() is Fetched {
                None
            } else {
                Some(reports.last())
            },
        }
    }
}

/// As long as every task that has ended fetched its package, the fetching goes on and has counted
/// them all. It is complete if that holds until no task is left, and the first task that failed or
/// broke off ends it with its error.
pub proof fn law_prefetch_succeeds_iff_every_task_does(total: usize, reports: Seq<TaskReport>)
    requires
        first_other_report(reports) is None ==> reports.len() <= total,
    ensures
        match first_other_report(reports) {
            None => prefetch_after(total, reports) == (Prefetch::Waiting {
                completed: reports.len() as usize,
            }),
            Some(TaskReport::Fetched) => false,
            Some(TaskReport::Drained) => prefetch_after(total, reports) is Complete,
            Some(TaskReport::Failed(error)) => prefetch_after(total, reports) == Prefetch::Failed(
                error,
            ),
            Some(TaskReport::Broken(text)) => prefetch_after(total, reports) == Prefetch::Failed(
                PrefetchError::Task(text),
            ),
        },
    decreases reports.len(),
{
    if reports.len() > 0 {
        let before = reports.drop_last();
        if first_other_report(before) is None && before.len() > total {
            lemma_a_full_count_stays(total, before);
        } else {
            law_prefetch_succeeds_iff_every_task_does(total, before);
        }
    }
}

/// Reports that packages were fetched keep the fetching going.
proof fn lemma_a_full_count_stays(total: usize, reports: Seq<TaskReport>)
    requires
        first_other_report(reports) is None,
    ensures
        prefetch_after(total, reports) is Waiting,
    decreases reports.len(),
{
    if reports.len() > 0 {
        lemma_a_full_count_stays(total, reports.drop_last());
    }
}

// ---------------------------------------------------------------------------
// Laws of the plan
// ---------------------------------------------------------------------------

/// The packages to fetch are those of the environment that was asked for, on the platform that was
/// asked for: with that environment in place and locked for the platform they are its packages as
/// listed; what other environments and other platforms hold changes nothing; an environment that is
/// not locked for the platform has none, and one that is missing is missing.
pub proof fn law_the_packages_are_those_that_were_asked_for(
    environments: Map<Seq<char>, Map<rattler_conda_types::Platform, Seq<LockedPackage>>>,
    name: Seq<char>,
    platform: rattler_conda_types::Platform,
    other_name: Seq<char>,
    other_platform: rattler_conda_types::Platform,
    environment: Map<rattler_conda_types::Platform, Seq<LockedPackage>>,
    packages: Seq<LockedPackage>,
    others: Seq<LockedPackage>,
)
    ensures
        packages_of(
            environments.insert(name, environment.insert(platform, packages)),
            name,
            platform,
        ) == Some(packages),
        other_platform != platform ==> packages_of(
            environments.insert(name, environment.insert(other_platform, others)),
            name,
            platform,
        ) == packages_of(environments.insert(name, environment), name, platform),
        other_name != name ==> packages_of(
            environments.insert(other_name, environment),
            name,
            platform,
        ) == packages_of(environments, name, platform),
        packages_of(environments.insert(name, environment.remove(platform)), name, platform)
            == Some(Seq::<LockedPackage>::empty()),
        packages_of(environments.remove(name), name, platform) is None,
{
}

/// Of two packages that are fetched, the larger one comes first, whatever their sizes; a package
/// of unknown size counts as one of size zero, and of packages that are as large as each other the
/// one that is listed first comes first.
pub proof fn law_larger_packages_come_first(
    packages: Seq<LockedPackage>,
    order: Seq<usize>,
    k: int,
    l: int,
)
    requires
        is_fetch_order(packages, order),
        0 <= k < l < order.len(),
    ensures
        order[k] < packages.len(),
        order[l] < packages.len(),
        packages[order[k] as int] matches LockedPackage::CondaBinary { size: first, has_url: a }
            && (packages[order[l] as int] matches LockedPackage::CondaBinary {
            size: second,
            has_url: b,
        } && ({
            let first_size: u64 = match first {
                Some(size) => size,
                None => 0,
            };
            let second_size: u64 = match second {
                Some(size) => size,
                None => 0,
            };
            first_size > second_size || (first_size == second_size && order[k] < order[l])
        })),
{
    assert(precedes(packages, order[k], order[l]));
    assert(packages[order[k] as int] is CondaBinary);
    assert(packages[order[l] as int] is CondaBinary);
}

// ---------------------------------------------------------------------------
// Laws of a task
// ---------------------------------------------------------------------------

/// What the task of `package` has to do after the replies `replies`.
pub open spec fn fetch_after(package: LockedPackage, replies: Seq<Reply>) -> FetchStep
    decreases replies.len(),
{
    if replies.len() == 0 {
        FetchStep::AcquirePermit
    } else {
        fetch_after(package, replies.drop_last()).after(package, replies.last())
    }
}

/// Whether, in the replies `replies`, the task was asked to fetch the package and this was done.
pub open spec fn fetching_done(package: LockedPackage, replies: Seq<Reply>) -> bool
    decreases replies.len(),
{
    replies.len() > 0 && (fetching_done(package, replies.drop_last()) || (fetch_after(
        package,
        replies.drop_last(),
    ) is Fetch && replies.last() is Done))
}

/// Whether a task has failed, with an error of these words.
pub open spec fn failed_saying(step: FetchStep, words: Seq<char>) -> bool {
    step matches FetchStep::Failed(error) && error.words() == words
}

/// A package is reported to be in the cache exactly if fetching it was asked for and was done.
pub proof fn law_fetched_means_fetched(package: LockedPackage, replies: Seq<Reply>)
    ensures
        fetch_after(package, replies) is Fetched <==> fetching_done(package, replies),
    decreases replies.len(),
{
    if replies.len() > 0 {
        law_fetched_means_fetched(package, replies.drop_last());
    }
}

/// Once its task has its turn, a package that has a URL is fetched, whatever its size, and one that
/// has none is not; whatever fails, the task fails and says what it was.
pub proof fn law_a_package_is_fetched_in_its_turn(
    package: LockedPackage,
    replies: Seq<Reply>,
    code: Option<i32>,
    text: String,
)
    requires
        fetch_after(package, replies) is AcquirePermit,
    ensures
        ({
            let turn = replies.push(Reply::Done);
            let failure = Reply::Failed { code, text };
            &&& failed_saying(
                fetch_after(package, replies.push(failure)),
                "concurrency semaphore closed: "@ + text@,
            )
            &&& match package {
                LockedPackage::CondaBinary { size, has_url: true } => {
                    &&& fetch_after(package, turn) is Fetch
                    &&& fetch_after(package, turn.push(Reply::Done)) is Fetched
                    &&& failed_saying(
                        fetch_after(package, turn.push(failure)),
                        "failed to prefetch package: "@ + text@,
                    )
                },
                _ => failed_saying(fetch_after(package, turn), "package has no URL"@),
            }
        }),
{
    let turn = replies.push(Reply::Done);
    let failure = Reply::Failed { code, text };
    assert(turn.drop_last() =~= replies);
    assert(replies.push(failure).drop_last() =~= replies);
    assert(turn.push(Reply::Done).drop_last() =~= turn);
    assert(turn.push(failure).drop_last() =~= turn);
}

/// The course of a task does not depend on the size of its package, it begins with a wait for its
/// turn, it takes no notice of what does not answer it, and its end is final.
pub proof fn law_the_course_of_a_task(
    size: Option<u64>,
    other_size: Option<u64>,
    has_url: bool,
    replies: Seq<Reply>,
    reply: Reply,
)
    ensures
        ({
            let package = LockedPackage::CondaBinary { size, has_url };
            let step = fetch_after(package, replies);
            &&& fetch_after(package, Seq::empty()) is AcquirePermit
            &&& step == fetch_after(
                LockedPackage::CondaBinary { size: other_size, has_url },
                replies,
            )
            &&& step is Fetched || step is Failed || !(reply is Done || reply is Failed)
                ==> fetch_after(package, replies.push(reply)) == step
        }),
    decreases replies.len(),
{
    assert(replies.push(reply).drop_last() =~= replies);
    if replies.len() > 0 {
        law_the_course_of_a_task(size, other_size, has_url, replies.drop_last(), reply);
    }
}

/// An error of fetching says what is missing or what broke off.
pub proof fn law_prefetch_errors_say_what_is_wrong(text: String)
    ensures
        PrefetchError::EnvironmentNotFound(text).words() == "environment '"@ + text@
            + "' not found in lock file"@,
        PrefetchError::Task(text).words() == "prefetch task failed: "@ + text@,
{
}

} // verus!
