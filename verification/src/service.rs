//! The orchestration service: validation first, then persistence, then a
//! refreshed read of the whole collection.
//!
//! `UserService` is generic over the persistence port. Each write validates
//! the incoming entity before any storage call — a rejected entity never
//! reaches the backend — and, on success, returns the full refreshed list of
//! users rather than the single affected row.

use vstd::prelude::*;

use crate::models::{spec_validate, ReasonCode, User, UserView};
use crate::repository::{email_taken, email_taken_by_other, has_user_id, RepoError, UserRepository};

verus! {

/// A failure of a service operation: the entity was rejected by validation,
/// the addressed row does not exist, the email uniqueness constraint was
/// violated, or the backend failed, with a reason.
#[derive(Clone, Debug, PartialEq)]
pub enum ServiceError {
    Validation(ReasonCode),
    NotFound(i32),
    Conflict,
    Internal(String),
}

/// Lifts a storage failure into a service failure, variant for variant.
pub fn service_error_of(e: RepoError) -> (r: ServiceError)
    ensures
        r == match e {
            RepoError::NotFound(id) => ServiceError::NotFound(id),
            RepoError::Conflict => ServiceError::Conflict,
            RepoError::Internal(d) => ServiceError::Internal(d),
        },
{
    match e {
        RepoError::NotFound(id) => ServiceError::NotFound(id),
        RepoError::Conflict => ServiceError::Conflict,
        RepoError::Internal(d) => ServiceError::Internal(d),
    }
}

/// The orchestration service over a storage backend `R`.
pub struct UserService<R: UserRepository> {
    repository: R,
}

impl<R: UserRepository> UserService<R> {
    /// The rows of the underlying backend.
    pub closed spec fn rows(&self) -> Seq<UserView> {
        self.repository.rows()
    }

    /// Well-formedness of the underlying backend.
    pub closed spec fn inv(&self) -> bool {
        self.repository.inv()
    }

    /// A service over the given backend.
    pub fn new(repository: R) -> (s: UserService<R>)
        ensures
            s.rows() == repository.rows(),
            s.inv() == repository.inv(),
    {
        UserService { repository }
    }

    /// Validates `user` and, if it is accepted, persists it and returns the
    /// refreshed list of all users. A rejected user fails with its validation
    /// reason before any storage call; on success the returned list is
    /// exactly the old rows plus the one new entry, under an identifier no
    /// old row had. A `Conflict` failure leaves the rows unchanged; any other
    /// failure leaves them unchanged unless only the re-read failed after the
    /// row was appended.
    pub fn create_user(&mut self, user: User) -> (r: Result<Vec<User>, ServiceError>)
        requires
            old(self).inv(),
        ensures
            final(self).inv(),
            spec_validate(user@) matches Err(c) ==> r == Err::<Vec<User>, ServiceError>(
                ServiceError::Validation(c),
            ) && final(self).rows() == old(self).rows(),
            r matches Err(ServiceError::Validation(c)) ==> spec_validate(user@) == Err::<
                (),
                ReasonCode,
            >(c),
            r matches Ok(users) ==> spec_validate(user@) is Ok && exists|id: i32|
                final(self).rows() == old(self).rows().push(#[trigger] user@.with_assigned(id))
                    && !has_user_id(old(self).rows(), id)
                    && users.deep_view() == final(self).rows(),
            r is Err ==> final(self).rows() == old(self).rows() || exists|id: i32|
                final(self).rows() == old(self).rows().push(#[trigger] user@.with_assigned(id))
                    && !has_user_id(old(self).rows(), id),
            r == Err::<Vec<User>, ServiceError>(ServiceError::Conflict) ==> email_taken(
                old(self).rows(),
                user@.email,
            ) && final(self).rows() == old(self).rows(),
            r matches Err(e) ==> !(e matches ServiceError::NotFound(_)),
    {
        if let Err(code) = user.validate() {
            return Err(ServiceError::Validation(code));
        }
        if let Err(e) = self.repository.create(&user) {
            return Err(service_error_of(e));
        }
        self.get_all_users()
    }

    /// Returns every persisted user; on success the list is exactly the
    /// stored rows, and the state is untouched.
    pub fn get_all_users(&self) -> (r: Result<Vec<User>, ServiceError>)
        requires
            self.inv(),
        ensures
            r matches Ok(users) ==> users.deep_view() == self.rows(),
            r matches Err(e) ==> e is Internal,
    {
        match self.repository.find_all() {
            Ok(users) => Ok(users),
            Err(e) => Err(service_error_of(e)),
        }
    }

    /// Validates the replacement values and, if they are accepted, replaces
    /// the fields of the row with identifier `id` — the path identifier, not
    /// any identifier inside `user`, addresses the row — and returns the
    /// refreshed list. When no row has that identifier the call fails and the
    /// rows are unchanged; `NotFound` and `Conflict` failures leave them
    /// unchanged, and any other failure leaves them unchanged unless only the
    /// re-read failed after the row was replaced.
    pub fn update_user(&mut self, id: i32, user: User) -> (r: Result<Vec<User>, ServiceError>)
        requires
            old(self).inv(),
        ensures
            final(self).inv(),
            spec_validate(user@) matches Err(c) ==> r == Err::<Vec<User>, ServiceError>(
                ServiceError::Validation(c),
            ) && final(self).rows() == old(self).rows(),
            r matches Err(ServiceError::Validation(c)) ==> spec_validate(user@) == Err::<
                (),
                ReasonCode,
            >(c),
            r matches Ok(users) ==> spec_validate(user@) is Ok && exists|i: int|
                0 <= i < old(self).rows().len() && (#[trigger] old(self).rows()[i]).id == Some(id)
                    && final(self).rows() == old(self).rows().update(
                    i,
                    old(self).rows()[i].with_fields_of(user@),
                ) && users.deep_view() == final(self).rows(),
            r matches Err(ServiceError::NotFound(nid)) ==> nid == id && !has_user_id(
                old(self).rows(),
                id,
            ) && final(self).rows() == old(self).rows(),
            r == Err::<Vec<User>, ServiceError>(ServiceError::Conflict) ==> email_taken_by_other(
                old(self).rows(),
                id,
                user@.email,
            ) && final(self).rows() == old(self).rows(),
            r is Err ==> final(self).rows() == old(self).rows() || exists|i: int|
                0 <= i < old(self).rows().len() && (#[trigger] old(self).rows()[i]).id == Some(id)
                    && final(self).rows() == old(self).rows().update(
                    i,
                    old(self).rows()[i].with_fields_of(user@),
                ),
            !has_user_id(old(self).rows(), id) ==> r is Err
                && final(self).rows() == old(self).rows(),
    {
        if let Err(code) = user.validate() {
            return Err(ServiceError::Validation(code));
        }
        if let Err(e) = self.repository.update(id, &user) {
            return Err(service_error_of(e));
        }
        proof {
            let i = choose|i: int|
                0 <= i < old(self).repository.rows().len() && (#[trigger] old(
                    self,
                ).repository.rows()[i]).id == Some(id) && self.repository.rows() == old(
                    self,
                ).repository.rows().update(
                    i,
                    old(self).repository.rows()[i].with_fields_of(user@),
                );
            assert(0 <= i < old(self).rows().len() && (#[trigger] old(self).rows()[i]).id == Some(
                id,
            ) && self.rows() == old(self).rows().update(
                i,
                old(self).rows()[i].with_fields_of(user@),
            ));
        }
        match self.get_all_users() {
            Ok(users) => Ok(users),
            Err(e) => Err(e),
        }
    }

    /// Removes the row with identifier `id`. When no row has that identifier
    /// the call fails; any failure leaves the rows unchanged.
    pub fn delete_user(&mut self, id: i32) -> (r: Result<(), ServiceError>)
        requires
            old(self).inv(),
        ensures
            final(self).inv(),
            r is Ok ==> exists|i: int|
                0 <= i < old(self).rows().len() && (#[trigger] old(self).rows()[i]).id == Some(id)
                    && final(self).rows() == old(self).rows().remove(i),
            r is Err ==> final(self).rows() == old(self).rows(),
            r matches Err(ServiceError::NotFound(nid)) ==> nid == id && !has_user_id(
                old(self).rows(),
                id,
            ),
            !has_user_id(old(self).rows(), id) ==> r is Err,
            r matches Err(e) ==> !(e is Conflict),
    {
        match self.repository.delete(id) {
            Ok(()) => {
                proof {
                    let i = choose|i: int|
                        0 <= i < old(self).repository.rows().len() && (#[trigger] old(
                            self,
                        ).repository.rows()[i]).id == Some(id) && self.repository.rows() == old(
                            self,
                        ).repository.rows().remove(i);
                    assert(0 <= i < old(self).rows().len() && (#[trigger] old(self).rows()[i]).id
                        == Some(id) && self.rows() == old(self).rows().remove(i));
                }
                Ok(())
            },
            Err(e) => Err(service_error_of(e)),
        }
    }
}

/// Listing is idempotent: any two results that `get_all_users` permits for
/// the same unchanged service state have identical contents.
pub proof fn lemma_list_idempotent<R: UserRepository>(
    s: &UserService<R>,
    first: Seq<UserView>,
    second: Seq<UserView>,
)
    requires
        first == s.rows(),
        second == s.rows(),
    ensures
        first == second,
{
}

} // verus!
