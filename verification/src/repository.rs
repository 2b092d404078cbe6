//! The persistence port and its in-memory reference backend.
//!
//! `UserRepository` is the capability set the orchestration service needs of
//! a storage backend: create, find-all, update-by-id and delete-by-id. Its
//! contracts state what each operation did to the stored rows whenever it
//! reports success, and that a failed operation left them unchanged; they do
//! not promise success, since a real backend may fail for reasons outside the
//! rows (connectivity, constraint enforcement).
//!
//! `InMemoryUserRepository` is the verified reference backend: it assigns
//! identifiers from a counter that never reuses one, keeps emails unique, and
//! its contracts pin the outcome of every operation exactly.

use vstd::prelude::*;

use crate::models::{User, UserView};

verus! {

/// A storage failure: the addressed row does not exist, the email uniqueness
/// constraint was violated, or the backend itself failed, with a reason.
#[derive(Clone, Debug, PartialEq)]
pub enum RepoError {
    NotFound(i32),
    Conflict,
    Internal(String),
}

/// Some stored row has this email.
pub open spec fn email_taken(rows: Seq<UserView>, email: Seq<char>) -> bool {
    exists|i: int| 0 <= i < rows.len() && (#[trigger] rows[i]).email == email
}

/// Some stored row other than the one with identifier `id` has this email.
pub open spec fn email_taken_by_other(rows: Seq<UserView>, id: i32, email: Seq<char>) -> bool {
    exists|i: int|
        0 <= i < rows.len() && (#[trigger] rows[i]).id != Some(id) && rows[i].email == email
}

/// Some stored row has this identifier.
pub open spec fn has_user_id(rows: Seq<UserView>, id: i32) -> bool {
    exists|i: int| 0 <= i < rows.len() && (#[trigger] rows[i]).id == Some(id)
}

/// The persistence port: what the orchestration service requires of any
/// storage backend. The contracts are the conformance bar for an
/// implementation; they relate each outcome to the abstract sequence of
/// stored rows.
pub trait UserRepository: Sized {
    /// The stored rows, in the backend's stable order.
    spec fn rows(&self) -> Seq<UserView>;

    /// The backend's internal well-formedness.
    spec fn inv(&self) -> bool;

    /// Inserts a new row for `user`, assigning it a fresh identifier. On
    /// success exactly that row was appended; `Conflict` is reported only for
    /// a violation of email uniqueness, and any failure leaves the rows
    /// unchanged.
    fn create(&mut self, user: &User) -> (r: Result<(), RepoError>)
        requires
            old(self).inv(),
        ensures
            final(self).inv(),
            r is Ok ==> exists|id: i32|
                final(self).rows() == old(self).rows().push(#[trigger] user@.with_assigned(id))
                    && !has_user_id(old(self).rows(), id),
            r is Err ==> final(self).rows() == old(self).rows(),
            r == Err::<(), RepoError>(RepoError::Conflict) ==> email_taken(
                old(self).rows(),
                user@.email,
            ),
            r matches Err(e) ==> !(e is NotFound),
    ;

    /// Returns every stored row; on success the result is exactly `rows()`.
    fn find_all(&self) -> (r: Result<Vec<User>, RepoError>)
        requires
            self.inv(),
        ensures
            r matches Ok(users) ==> users.deep_view() == self.rows(),
            r matches Err(e) ==> e is Internal,
    ;

    /// Replaces the name, email and password of the row with identifier `id`.
    /// `NotFound` is reported only when no row has that identifier; any
    /// failure leaves the rows unchanged, and success changes exactly the
    /// addressed row, keeping its identifier.
    fn update(&mut self, id: i32, user: &User) -> (r: Result<(), RepoError>)
        requires
            old(self).inv(),
        ensures
            final(self).inv(),
            r is Ok ==> exists|i: int|
                0 <= i < old(self).rows().len() && (#[trigger] old(self).rows()[i]).id == Some(id)
                    && final(self).rows() == old(self).rows().update(
                    i,
                    old(self).rows()[i].with_fields_of(user@),
                ),
            r is Err ==> final(self).rows() == old(self).rows(),
            r matches Err(RepoError::NotFound(nid)) ==> nid == id && !has_user_id(
                old(self).rows(),
                id,
            ),
            r == Err::<(), RepoError>(RepoError::Conflict) ==> email_taken_by_other(
                old(self).rows(),
                id,
                user@.email,
            ),
    ;

    /// Removes the row with identifier `id`. `NotFound` is reported only when
    /// no row has that identifier; any failure leaves the rows unchanged, and
    /// success removes exactly the addressed row.
    fn delete(&mut self, id: i32) -> (r: Result<(), RepoError>)
        requires
            old(self).inv(),
        ensures
            final(self).inv(),
            r is Ok ==> exists|i: int|
                0 <= i < old(self).rows().len() && (#[trigger] old(self).rows()[i]).id == Some(id)
                    && final(self).rows() == old(self).rows().remove(i),
            r is Err ==> final(self).rows() == old(self).rows(),
            r matches Err(RepoError::NotFound(nid)) ==> nid == id && !has_user_id(
                old(self).rows(),
                id,
            ),
            r matches Err(e) ==> !(e is Conflict),
    ;
}

/// The verified in-memory backend: rows in insertion order, identifiers
/// assigned from a counter starting at 1 and never reused, emails unique.
pub struct InMemoryUserRepository {
    users: Vec<User>,
    next_id: i32,
}

impl InMemoryUserRepository {
    /// The stored rows.
    pub closed spec fn spec_rows(&self) -> Seq<UserView> {
        self.users.deep_view()
    }

    /// The identifier the next successful create will assign.
    pub closed spec fn next_assigned_id(&self) -> i32 {
        self.next_id
    }

    /// The identifier counter has room for another assignment.
    pub closed spec fn can_assign(&self) -> bool {
        self.next_id < i32::MAX
    }

    /// Well-formedness: every row has an identifier in `[1, next_id)`, and no
    /// two rows share an identifier or an email.
    pub closed spec fn spec_inv(&self) -> bool {
        let rows = self.users.deep_view();
        &&& 1 <= self.next_id
        &&& forall|i: int|
            0 <= i < rows.len() ==> ((#[trigger] rows[i]).id matches Some(v) && 1 <= v
                < self.next_id)
        &&& forall|i: int, j: int|
            0 <= i < j < rows.len() ==> (#[trigger] rows[i]).id != (#[trigger] rows[j]).id
                && rows[i].email != rows[j].email
    }

    /// An empty backend.
    pub fn new() -> (r: InMemoryUserRepository)
        ensures
            r.inv(),
            r.rows() == Seq::<UserView>::empty(),
            r.can_assign(),
            r.next_assigned_id() == 1,
    {
        let r = InMemoryUserRepository { users: Vec::new(), next_id: 1 };
        proof {
            assert(r.users.deep_view() =~= Seq::<UserView>::empty());
        }
        r
    }

    /// The index of the row with identifier `id`, if any.
    fn position_of_id(&self, id: i32) -> (r: Option<usize>)
        ensures
            r matches Some(i) ==> i < self.spec_rows().len() && self.spec_rows()[i as int].id
                == Some(id),
            r is None ==> !has_user_id(self.spec_rows(), id),
    {
        let n = self.users.len();
        let mut i: usize = 0;
        while i < n
            invariant
                n == self.users.len(),
                0 <= i <= n,
                self.spec_rows().len() == n,
                forall|j: int| 0 <= j < i ==> (#[trigger] self.spec_rows()[j]).id != Some(id),
            decreases n - i,
        {
            if self.users[i].id == Some(id) {
                return Some(i);
            }
            i = i + 1;
        }
        None
    }

    /// Whether any row holds this email.
    fn contains_email(&self, email: &String) -> (b: bool)
        ensures
            b == email_taken(self.spec_rows(), email@),
    {
        let n = self.users.len();
        let mut i: usize = 0;
        while i < n
            invariant
                n == self.users.len(),
                0 <= i <= n,
                self.spec_rows().len() == n,
                forall|j: int| 0 <= j < i ==> (#[trigger] self.spec_rows()[j]).email != email@,
            decreases n - i,
        {
            if self.users[i].email == *email {
                proof {
                    assert((#[trigger] self.spec_rows()[i as int]).email == email@);
                }
                return true;
            }
            i = i + 1;
        }
        false
    }

    /// Whether any row other than the one with identifier `id` holds this
    /// email.
    fn other_has_email(&self, id: i32, email: &String) -> (b: bool)
        ensures
            b == email_taken_by_other(self.spec_rows(), id, email@),
    {
        let n = self.users.len();
        let mut i: usize = 0;
        while i < n
            invariant
                n == self.users.len(),
                0 <= i <= n,
                self.spec_rows().len() == n,
                forall|j: int|
                    0 <= j < i ==> !((#[trigger] self.spec_rows()[j]).id != Some(id)
                        && self.spec_rows()[j].email == email@),
            decreases n - i,
        {
            let row = &self.users[i];
            if row.email == *email {
                let is_other = match row.id {
                    Some(rid) => rid != id,
                    None => true,
                };
                if is_other {
                    proof {
                        assert((#[trigger] self.spec_rows()[i as int]).id != Some(id)
                            && self.spec_rows()[i as int].email == email@);
                    }
                    return true;
                }
            }
            i = i + 1;
        }
        false
    }
}

impl UserRepository for InMemoryUserRepository {
    closed spec fn rows(&self) -> Seq<UserView> {
        self.spec_rows()
    }

    closed spec fn inv(&self) -> bool {
        self.spec_inv()
    }

    fn create(&mut self, user: &User) -> (r: Result<(), RepoError>)
        ensures
            email_taken(old(self).rows(), user@.email) ==> r == Err::<(), RepoError>(
                RepoError::Conflict,
            ) && *final(self) == *old(self),
            !email_taken(old(self).rows(), user@.email) && !old(self).can_assign() ==> (
            r matches Err(RepoError::Internal(d)) && d@ == "user identifier space exhausted"@
                && *final(self) == *old(self)),
            !email_taken(old(self).rows(), user@.email) && old(self).can_assign() ==> r is Ok
                && final(self).rows() == old(self).rows().push(
                user@.with_assigned(old(self).next_assigned_id()),
            ) && final(self).next_assigned_id() == old(self).next_assigned_id() + 1,
    {
        if self.contains_email(&user.email) {
            return Err(RepoError::Conflict);
        }
        if self.next_id == i32::MAX {
            return Err(RepoError::Internal("user identifier space exhausted".to_owned()));
        }
        let id = self.next_id;
        let stored = User::with_id(
            id,
            user.name.clone(),
            user.email.clone(),
            user.password.clone(),
        );
        self.users.push(stored);
        self.next_id = id + 1;
        proof {
            let prev = old(self).spec_rows();
            let now = self.spec_rows();
            assert(now =~= prev.push(user@.with_assigned(id)));
            assert forall|i: int| 0 <= i < now.len() implies ((#[trigger] now[i]).id matches Some(v)
                && 1 <= v < self.next_id) by {
                if i < prev.len() {
                    assert(now[i] == prev[i]);
                }
            }
            assert forall|i: int, j: int| 0 <= i < j < now.len() implies (#[trigger] now[i]).id
                != (#[trigger] now[j]).id && now[i].email != now[j].email by {
                if j == prev.len() {
                    assert(prev[i].id matches Some(v) && 1 <= v < old(self).next_id);
                }
            }
        }
        Ok(())
    }

    fn find_all(&self) -> (r: Result<Vec<User>, RepoError>)
        ensures
            r is Ok,
    {
        let n = self.users.len();
        let mut out: Vec<User> = Vec::new();
        let mut i: usize = 0;
        while i < n
            invariant
                n == self.users.len(),
                0 <= i <= n,
                out@.len() == i,
                forall|j: int| 0 <= j < i ==> (#[trigger] out@[j])@ == self.spec_rows()[j],
            decreases n - i,
        {
            let u = self.users[i].clone();
            out.push(u);
            i = i + 1;
        }
        proof {
            assert(out.deep_view() =~= self.spec_rows());
        }
        Ok(out)
    }

    fn update(&mut self, id: i32, user: &User) -> (r: Result<(), RepoError>)
        ensures
            !has_user_id(old(self).rows(), id) ==> r == Err::<(), RepoError>(
                RepoError::NotFound(id),
            ) && *final(self) == *old(self),
            has_user_id(old(self).rows(), id) && email_taken_by_other(
                old(self).rows(),
                id,
                user@.email,
            ) ==> r == Err::<(), RepoError>(RepoError::Conflict) && *final(self) == *old(self),
            has_user_id(old(self).rows(), id) && !email_taken_by_other(
                old(self).rows(),
                id,
                user@.email,
            ) ==> r is Ok,
    {
        let idx = match self.position_of_id(id) {
            None => {
                return Err(RepoError::NotFound(id));
            },
            Some(idx) => idx,
        };
        if self.other_has_email(id, &user.email) {
            return Err(RepoError::Conflict);
        }
        let replacement = User::with_id(
            id,
            user.name.clone(),
            user.email.clone(),
            user.password.clone(),
        );
        let _ = self.users.remove(idx);
        self.users.insert(idx, replacement);
        proof {
            let prev = old(self).spec_rows();
            let now = self.spec_rows();
            assert(now =~= prev.update(idx as int, prev[idx as int].with_fields_of(user@)));
            assert forall|i: int| 0 <= i < now.len() implies ((#[trigger] now[i]).id matches Some(v)
                && 1 <= v < self.next_id) by {
                if i != idx {
                    assert(now[i] == prev[i]);
                }
            }
            assert forall|i: int, j: int| 0 <= i < j < now.len() implies (#[trigger] now[i]).id
                != (#[trigger] now[j]).id && now[i].email != now[j].email by {
                if i != idx && j != idx {
                    assert(now[i] == prev[i] && now[j] == prev[j]);
                } else if i == idx {
                    assert(now[j] == prev[j]);
                    assert(prev[j].id != Some(id));
                } else {
                    assert(now[i] == prev[i]);
                    assert(prev[i].id != Some(id));
                }
            }
            assert(exists|i: int|
                0 <= i < old(self).rows().len() && (#[trigger] old(self).rows()[i]).id == Some(id)
                    && self.rows() == old(self).rows().update(
                    i,
                    old(self).rows()[i].with_fields_of(user@),
                )) by {
                assert(0 <= idx < old(self).rows().len() && (#[trigger] old(self).rows()[idx as int]).id
                    == Some(id) && self.rows() == old(self).rows().update(
                    idx as int,
                    old(self).rows()[idx as int].with_fields_of(user@),
                ));
            }
        }
        Ok(())
    }

    fn delete(&mut self, id: i32) -> (r: Result<(), RepoError>)
        ensures
            !has_user_id(old(self).rows(), id) ==> r == Err::<(), RepoError>(
                RepoError::NotFound(id),
            ) && *final(self) == *old(self),
            has_user_id(old(self).rows(), id) ==> r is Ok,
    {
        let idx = match self.position_of_id(id) {
            None => {
                return Err(RepoError::NotFound(id));
            },
            Some(idx) => idx,
        };
        let _ = self.users.remove(idx);
        proof {
            let prev = old(self).spec_rows();
            let now = self.spec_rows();
            assert(now =~= prev.remove(idx as int));
            assert forall|i: int| 0 <= i < now.len() implies ((#[trigger] now[i]).id matches Some(v)
                && 1 <= v < self.next_id) by {
                if i < idx {
                    assert(now[i] == prev[i]);
                } else {
                    assert(now[i] == prev[i + 1]);
                }
            }
            assert forall|i: int, j: int| 0 <= i < j < now.len() implies (#[trigger] now[i]).id
                != (#[trigger] now[j]).id && now[i].email != now[j].email by {
                let pi: int = if i < idx { i } else { i + 1 };
                let pj: int = if j < idx { j } else { j + 1 };
                assert(now[i] == prev[pi] && now[j] == prev[pj]);
            }
            assert(exists|i: int|
                0 <= i < old(self).rows().len() && (#[trigger] old(self).rows()[i]).id == Some(id)
                    && self.rows() == old(self).rows().remove(i)) by {
                assert(0 <= idx < old(self).rows().len() && (#[trigger] old(self).rows()[idx as int]).id
                    == Some(id) && self.rows() == old(self).rows().remove(idx as int));
            }
        }
        Ok(())
    }
}

/// After a successful create of a user whose email no stored row held, the
/// refreshed listing is the old one plus exactly one new entry: it stands at
/// the end, it equals the submitted user except for the assigned identifier,
/// and no other entry has that email.
pub proof fn lemma_create_round_trip(before: Seq<UserView>, u: UserView, id: i32)
    requires
        !email_taken(before, u.email),
    ensures
        before.push(u.with_assigned(id)).len() == before.len() + 1,
        before.push(u.with_assigned(id)).last() == u.with_assigned(id),
        u.with_assigned(id).name == u.name,
        u.with_assigned(id).email == u.email,
        u.with_assigned(id).password == u.password,
        u.with_assigned(id).id == Some(id),
        forall|i: int|
            0 <= i < before.len() ==> before.push(u.with_assigned(id))[i] == before[i] && (
            #[trigger] before.push(u.with_assigned(id))[i]).email != u.email,
{
}

} // verus!
