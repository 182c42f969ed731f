use std::str::FromStr;

use mount_sidecar::prefetch::{
    fetch_order, prefetch_packages_for_mount, FetchStep, LockedPackage, Prefetch, PrefetchError,
    PrefetchPlan, TaskReport, CONCURRENT_FETCHES,
};
use mount_sidecar::protocol::Reply;
use rattler_conda_types::Platform;
use rattler_lock::LockFile;

const LOCK: &str = "version: 6
environments:
  default:
    channels:
    - url: https://conda.anaconda.org/conda-forge/
    indexes:
    - https://pypi.org/simple
    packages:
      linux-64:
      - conda: https://conda.anaconda.org/conda-forge/linux-64/alpha-1.0-h0_0.conda
      - conda: https://conda.anaconda.org/conda-forge/linux-64/beta-1.0-h0_0.conda
      - conda: https://conda.anaconda.org/conda-forge/linux-64/gamma-1.0-h0_0.conda
      - conda: https://conda.anaconda.org/conda-forge/noarch/delta-1.0-h0_0.conda
      - pypi: https://files.pythonhosted.org/packages/00/epsilon-1.0-py3-none-any.whl
      osx-64: []
  empty:
    channels:
    - url: https://conda.anaconda.org/conda-forge/
    packages: {}
packages:
- conda: https://conda.anaconda.org/conda-forge/linux-64/alpha-1.0-h0_0.conda
  sha256: 0000000000000000000000000000000000000000000000000000000000000001
  md5: 00000000000000000000000000000001
  size: 10
- conda: https://conda.anaconda.org/conda-forge/linux-64/beta-1.0-h0_0.conda
  sha256: 0000000000000000000000000000000000000000000000000000000000000002
  md5: 00000000000000000000000000000002
  size: 3000
- conda: https://conda.anaconda.org/conda-forge/linux-64/gamma-1.0-h0_0.conda
  sha256: 0000000000000000000000000000000000000000000000000000000000000003
  md5: 00000000000000000000000000000003
- conda: https://conda.anaconda.org/conda-forge/noarch/delta-1.0-h0_0.conda
  sha256: 0000000000000000000000000000000000000000000000000000000000000004
  md5: 00000000000000000000000000000004
  size: 200
- pypi: https://files.pythonhosted.org/packages/00/epsilon-1.0-py3-none-any.whl
  name: epsilon
  version: '1.0'
  sha256: 0000000000000000000000000000000000000000000000000000000000000005
";

fn lock_file() -> LockFile {
    LockFile::from_str(LOCK).unwrap()
}

fn names(lock_file: &LockFile, environment: &str, platform: Platform) -> Vec<String> {
    let order = prefetch_packages_for_mount(lock_file, environment, platform).unwrap().order;
    let packages: Vec<String> = match lock_file.environment(environment).unwrap().packages(platform)
    {
        Some(packages) => packages.map(|package| package.name().to_string()).collect(),
        None => Vec::new(),
    };
    order.into_iter().map(|place| packages[place].clone()).collect()
}

fn binary(size: Option<u64>) -> LockedPackage {
    LockedPackage::CondaBinary { size, has_url: true }
}

fn failed(text: &str) -> Reply {
    Reply::Failed { code: None, text: text.to_string() }
}

#[test]
fn the_largest_packages_of_a_lock_file_come_first() {
    let lock_file = lock_file();
    assert_eq!(
        names(&lock_file, "default", Platform::Linux64),
        vec!["beta", "delta", "alpha", "gamma"]
    );
}

#[test]
fn what_matters_of_the_packages_of_a_lock_file() {
    let plan = prefetch_packages_for_mount(&lock_file(), "default", Platform::Linux64).unwrap();
    assert_eq!(
        plan,
        PrefetchPlan {
            packages: vec![
                binary(Some(10)),
                binary(Some(3000)),
                binary(None),
                binary(Some(200)),
                LockedPackage::Pypi,
            ],
            order: vec![1, 3, 0, 2],
        }
    );
}

#[test]
fn a_package_at_a_path_has_no_url() {
    let from = "https://conda.anaconda.org/conda-forge/noarch/delta-1.0-h0_0.conda";
    let local = LOCK
        .replace(from, "./channel/noarch/delta-1.0-h0_0.conda")
        .replace("  size: 200\n", "  size: 200\n  subdir: noarch\n");
    let lock_file = LockFile::from_str(&local).unwrap();
    let plan = prefetch_packages_for_mount(&lock_file, "default", Platform::Linux64).unwrap();
    let packages: Vec<&LockedPackage> =
        plan.order.iter().map(|place| &plan.packages[*place]).collect();
    assert!(packages.contains(&&LockedPackage::CondaBinary { size: Some(200), has_url: false }));
}

#[test]
fn packages_that_are_built_from_source_are_not_fetched() {
    let from = "- conda: https://conda.anaconda.org/conda-forge/noarch/delta-1.0-h0_0.conda\n";
    let (start, end) = LOCK.split_at(LOCK.rfind(from).unwrap());
    let source = "- conda: ./delta
  name: delta
  version: '1.0'
  build: h0_0
  subdir: noarch
";
    let lock = format!(
        "{}{}{}",
        start.replace(from, "- conda: ./delta\n"),
        source,
        &end[from.len()..]
    );
    let lock_file = LockFile::from_str(&lock).unwrap();
    let plan = prefetch_packages_for_mount(&lock_file, "default", Platform::Linux64).unwrap();
    assert_eq!(plan.packages[3], LockedPackage::CondaSource);
    assert_eq!(plan.packages[4], LockedPackage::Pypi);
    assert_eq!(plan.order, vec![1, 0, 2]);
}

#[test]
fn there_may_be_nothing_to_fetch() {
    let lock_file = lock_file();
    for (environment, platform) in [
        ("default", Platform::Osx64),
        ("default", Platform::Win64),
        ("empty", Platform::Linux64),
    ] {
        assert_eq!(
            prefetch_packages_for_mount(&lock_file, environment, platform),
            Ok(PrefetchPlan { packages: vec![], order: vec![] })
        );
    }
}

#[test]
fn an_environment_may_be_missing() {
    let missing = prefetch_packages_for_mount(&lock_file(), "test", Platform::Linux64);
    assert_eq!(missing, Err(PrefetchError::EnvironmentNotFound("test".to_string())));
    assert_eq!(
        missing.unwrap_err().message(),
        "environment 'test' not found in lock file"
    );
}

#[test]
fn the_order_is_by_size_and_stable() {
    let packages = vec![
        binary(Some(5)),
        LockedPackage::Pypi,
        binary(None),
        binary(Some(9)),
        binary(Some(5)),
        binary(Some(0)),
        binary(Some(u64::MAX)),
        LockedPackage::CondaSource,
        binary(Some(9)),
    ];
    assert_eq!(fetch_order(&packages), vec![6, 3, 8, 0, 4, 2, 5]);
    assert_eq!(fetch_order(&vec![]), Vec::<usize>::new());
    let others = vec![LockedPackage::Pypi, LockedPackage::CondaSource];
    assert_eq!(fetch_order(&others), Vec::<usize>::new());
}

#[test]
fn the_order_is_that_of_a_stable_sort() {
    let mut seed: u64 = 1;
    let mut packages = Vec::new();
    for _ in 0..200 {
        seed = seed.wrapping_mul(6364136223846793005).wrapping_add(1442695040888963407);
        packages.push(match (seed >> 33) % 5 {
            0 => LockedPackage::Pypi,
            1 => LockedPackage::CondaSource,
            2 => binary(None),
            _ => binary(Some((seed >> 40) % 20)),
        });
    }
    let size = |place: &usize| match packages[*place] {
        LockedPackage::CondaBinary { size, .. } => size.unwrap_or(0),
        LockedPackage::CondaSource | LockedPackage::Pypi => 0,
    };
    let mut expected: Vec<usize> = (0..packages.len())
        .filter(|place| matches!(packages[*place], LockedPackage::CondaBinary { .. }))
        .collect();
    expected.sort_by(|a, b| size(b).cmp(&size(a)));
    assert_eq!(fetch_order(&packages), expected);
}

#[test]
fn a_package_is_fetched_in_its_turn() {
    let package = binary(Some(1));
    let step = FetchStep::AcquirePermit.next(package, Reply::Done);
    assert_eq!(step, FetchStep::Fetch);
    assert_eq!(step.next(package, Reply::Done), FetchStep::Fetched);
    assert_eq!(CONCURRENT_FETCHES, 16);
}

#[test]
fn every_failure_of_a_fetch_has_its_words() {
    for (step, has_url, reply, words) in [
        (
            FetchStep::AcquirePermit,
            true,
            failed("closed"),
            "concurrency semaphore closed: closed",
        ),
        (FetchStep::AcquirePermit, false, Reply::Done, "package has no URL"),
        (FetchStep::Fetch, true, failed("404"), "failed to prefetch package: 404"),
    ] {
        let package = LockedPackage::CondaBinary { size: None, has_url };
        match step.next(package, reply) {
            FetchStep::Failed(error) => assert_eq!(error.message(), words),
            other => panic!("{other:?}"),
        }
    }
    match (Prefetch::Waiting { completed: 0 }).next(1, TaskReport::Broken("panicked".to_string())) {
        Prefetch::Failed(error) => assert_eq!(error.message(), "prefetch task failed: panicked"),
        other => panic!("{other:?}"),
    }
}

#[test]
fn fetching_is_complete_when_no_task_is_left() {
    let mut state = Prefetch::Waiting { completed: 0 };
    for completed in 1..4usize {
        state = state.next(3, TaskReport::Fetched);
        assert_eq!(state, Prefetch::Waiting { completed });
    }
    state = state.next(3, TaskReport::Drained);
    assert_eq!(state, Prefetch::Complete);
}

#[test]
fn the_first_failure_ends_the_fetching() {
    let mut state = Prefetch::Waiting { completed: 0 };
    state = state.next(3, TaskReport::Fetched);
    state = state.next(3, TaskReport::Failed(PrefetchError::NoUrl));
    state = state.next(3, TaskReport::Broken("later".to_string()));
    state = state.next(3, TaskReport::Drained);
    assert_eq!(state, Prefetch::Failed(PrefetchError::NoUrl));
}
