use std::cell::Cell;

use invocation::{Constant, Identity, Invocation};

/// An invocation whose fallible phase succeeds or fails as told, and whose
/// commit phase raises a flag on a shared cell, so a test can observe whether
/// any commit happened.
struct FlagOnCommit<'a> {
    succeeds: bool,
    committed: &'a Cell<bool>,
}

impl<'a> Invocation for FlagOnCommit<'a> {
    type Error = String;
    type Output = i32;
    type IntermediateState = i32;

    // The trait's ghost items are erased before anything runs, but the
    // compiled trait still lists them, so an implementation outside the
    // library provides stubs that are never called.
    fn may_fail_spec(&self) -> Result<i32, String> {
        unreachable!()
    }

    fn commit_spec(self, _tmp: i32) -> i32 {
        unreachable!()
    }

    fn may_fail(&self) -> Result<i32, String> {
        if self.succeeds {
            Ok(7)
        } else {
            Err("rejected".to_owned())
        }
    }

    fn commit(self, tmp: i32) -> i32 {
        self.committed.set(true);
        tmp
    }
}

#[test]
fn trivial_succeeding_function() {
    let invocation = Constant;
    let answer = invocation.execute();
    assert_eq!(Ok(42), answer)
}

#[test]
fn combine_two_invocations() {
    let first_invocation = Constant;
    let second_invocation = Constant;
    // Both of these operations may fail, but do not change application state.
    let (first_result, second_result) =
        (first_invocation, second_invocation).execute().unwrap();

    assert_eq!((42, 42), (first_result, second_result))
}

#[test]
fn identity_local_argument() {
    // Given an argument with a non-static lifetime
    let local_argument = "Hello, World!".to_owned();

    let invocation = Identity::new(local_argument);
    let result = invocation.execute().unwrap();

    assert_eq!("Hello, World!", result)
}

#[test]
fn failing_invocation_returns_error_without_committing() {
    let committed = Cell::new(false);
    let invocation = FlagOnCommit {
        succeeds: false,
        committed: &committed,
    };

    let result = invocation.execute();

    assert_eq!(Err("rejected".to_owned()), result);
    assert!(!committed.get());
}

#[test]
fn succeeding_invocation_commits_exactly_its_intermediate_state() {
    let committed = Cell::new(false);
    let invocation = FlagOnCommit {
        succeeds: true,
        committed: &committed,
    };

    let result = invocation.execute();

    assert_eq!(Ok(7), result);
    assert!(committed.get());
}

#[test]
fn pair_short_circuits_on_first_failure() {
    let first_committed = Cell::new(false);
    let second_committed = Cell::new(false);
    let first = FlagOnCommit {
        succeeds: false,
        committed: &first_committed,
    };
    let second = FlagOnCommit {
        succeeds: true,
        committed: &second_committed,
    };

    let result = (first, second).execute();

    assert_eq!(Err("rejected".to_owned()), result);
    assert!(!first_committed.get());
    assert!(!second_committed.get());
}

#[test]
fn pair_short_circuits_on_second_failure() {
    let first_committed = Cell::new(false);
    let second_committed = Cell::new(false);
    let first = FlagOnCommit {
        succeeds: true,
        committed: &first_committed,
    };
    let second = FlagOnCommit {
        succeeds: false,
        committed: &second_committed,
    };

    let result = (first, second).execute();

    assert_eq!(Err("rejected".to_owned()), result);
    assert!(!first_committed.get());
    assert!(!second_committed.get());
}

#[test]
fn pair_of_successes_commits_both_in_order() {
    let first_committed = Cell::new(false);
    let second_committed = Cell::new(false);
    let first = FlagOnCommit {
        succeeds: true,
        committed: &first_committed,
    };
    let second = FlagOnCommit {
        succeeds: true,
        committed: &second_committed,
    };

    let result = (first, second).execute();

    assert_eq!(Ok((7, 7)), result);
    assert!(first_committed.get());
    assert!(second_committed.get());
}

#[test]
fn nested_pairs_chain_three_invocations() {
    let result = (Constant, (Constant, Constant)).execute();

    assert_eq!(Ok((42, (42, 42))), result);
}

#[test]
fn nested_pair_short_circuits_deep_failure() {
    let committed = Cell::new(false);
    let failing = FlagOnCommit {
        succeeds: false,
        committed: &committed,
    };
    let succeeding = FlagOnCommit {
        succeeds: true,
        committed: &committed,
    };

    let last = FlagOnCommit {
        succeeds: true,
        committed: &committed,
    };

    let result = (succeeding, (failing, last)).execute();

    assert_eq!(Err("rejected".to_owned()), result);
    assert!(!committed.get());
}

#[test]
fn identity_passes_through_a_vector() {
    let invocation = Identity::new(vec![1u8, 2, 3]);

    assert_eq!(Ok(vec![1u8, 2, 3]), invocation.execute());
}
