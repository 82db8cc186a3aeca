//! The status resource: its error kinds, how a storage failure is classified
//! for each operation, the statements each operation runs, and what each
//! operation returns for what the storage engine answered.
use vstd::prelude::*;
use crate::http_status::{
    ResponseStatusCode, OK, BAD_REQUEST, FORBIDDEN, NOT_FOUND, INTERNAL_SERVER_ERROR,
};
use crate::response::{ApiResponse, CauseChain, chain_of, texts};
use crate::storage::{FailureSignal, StorageFailure, may_be_constraint};

verus! {

/// The unique constraint on a status's name.
pub const NAME_UNIQUE_CONSTRAINT: &'static str = "un_issue_statuses_name";

/// The foreign key by which an issue refers to its status.
pub const ISSUES_STATUS_FK: &'static str = "fk_issues_status";

pub const ALREADY_EXISTS_MESSAGE: &'static str = "Status with the given name already exists";

pub const NOT_FOUND_MESSAGE: &'static str = "Status not found";

pub const IN_USE_MESSAGE: &'static str = "Status cannot be deleted because it is in use";

pub const NO_FIELDS_PATCHED_MESSAGE: &'static str = "At least one field must be patched, none were";

pub const STORAGE_FAILURE_MESSAGE: &'static str = "Failed to manipulate database resources";

/// The chain of a storage failure wrapped by an operation's error.
pub open spec fn storage_chain(f: StorageFailure) -> Seq<Seq<char>> {
    seq![STORAGE_FAILURE_MESSAGE@] + texts(f.causes@)
}

/// The failure is a violation of the unique constraint on names: a unique
/// violation that names that constraint, or names none.
pub open spec fn is_name_taken(f: StorageFailure) -> bool {
    f.signal == FailureSignal::UniqueViolation && may_be_constraint(f, NAME_UNIQUE_CONSTRAINT@)
}

/// The failure is a violation of the foreign key from issues to statuses: a
/// foreign key violation that names that key, or names none.
pub open spec fn is_status_referenced(f: StorageFailure) -> bool {
    f.signal == FailureSignal::ForeignKeyViolation && may_be_constraint(f, ISSUES_STATUS_FK@)
}

/// A chain of one description.
fn single_chain(message: &str) -> (r: Vec<String>)
    ensures
        texts(r@) == seq![message@],
{
    let none: Vec<String> = Vec::new();
    assert(texts(none@) =~= Seq::<Seq<char>>::empty());
    let r = chain_of(message, &none);
    assert(texts(r@) =~= seq![message@]);
    r
}

/// Why creating a status failed.
#[derive(Debug)]
pub enum NewStatusError {
    AlreadyExists,
    Storage(StorageFailure),
}

impl NewStatusError {
    pub open spec fn classify(f: StorageFailure) -> Self {
        if is_name_taken(f) {
            NewStatusError::AlreadyExists
        } else {
            NewStatusError::Storage(f)
        }
    }

    pub fn from_failure(f: StorageFailure) -> (r: Self)
        ensures
            r == Self::classify(f),
    {
        if f.is_violation_of(FailureSignal::UniqueViolation, NAME_UNIQUE_CONSTRAINT) {
            NewStatusError::AlreadyExists
        } else {
            NewStatusError::Storage(f)
        }
    }
}

impl ResponseStatusCode for NewStatusError {
    open spec fn status_spec(&self) -> u16 {
        match self {
            NewStatusError::AlreadyExists => FORBIDDEN,
            NewStatusError::Storage(_) => INTERNAL_SERVER_ERROR,
        }
    }

    fn status_code(&self) -> (r: u16) {
        match self {
            NewStatusError::AlreadyExists => FORBIDDEN,
            NewStatusError::Storage(_) => INTERNAL_SERVER_ERROR,
        }
    }
}

impl CauseChain for NewStatusError {
    open spec fn chain_spec(&self) -> Seq<Seq<char>> {
        match self {
            NewStatusError::AlreadyExists => seq![ALREADY_EXISTS_MESSAGE@],
            NewStatusError::Storage(f) => storage_chain(*f),
        }
    }

    fn cause_chain(&self) -> (r: Vec<String>) {
        match self {
            NewStatusError::AlreadyExists => single_chain(ALREADY_EXISTS_MESSAGE),
            NewStatusError::Storage(f) => chain_of(STORAGE_FAILURE_MESSAGE, &f.causes),
        }
    }
}

/// Why reading a status, or the list of statuses, failed.
#[derive(Debug)]
pub enum GetStatusError {
    NotFound,
    Storage(StorageFailure),
}

impl GetStatusError {
    pub open spec fn classify(f: StorageFailure) -> Self {
        if f.signal == FailureSignal::RowNotFound {
            GetStatusError::NotFound
        } else {
            GetStatusError::Storage(f)
        }
    }

    pub fn from_failure(f: StorageFailure) -> (r: Self)
        ensures
            r == Self::classify(f),
    {
        if f.signal == FailureSignal::RowNotFound {
            GetStatusError::NotFound
        } else {
            GetStatusError::Storage(f)
        }
    }
}

impl ResponseStatusCode for GetStatusError {
    open spec fn status_spec(&self) -> u16 {
        match self {
            GetStatusError::NotFound => NOT_FOUND,
            GetStatusError::Storage(_) => INTERNAL_SERVER_ERROR,
        }
    }

    fn status_code(&self) -> (r: u16) {
        match self {
            GetStatusError::NotFound => NOT_FOUND,
            GetStatusError::Storage(_) => INTERNAL_SERVER_ERROR,
        }
    }
}

impl CauseChain for GetStatusError {
    open spec fn chain_spec(&self) -> Seq<Seq<char>> {
        match self {
            GetStatusError::NotFound => seq![NOT_FOUND_MESSAGE@],
            GetStatusError::Storage(f) => storage_chain(*f),
        }
    }

    fn cause_chain(&self) -> (r: Vec<String>) {
        match self {
            GetStatusError::NotFound => single_chain(NOT_FOUND_MESSAGE),
            GetStatusError::Storage(f) => chain_of(STORAGE_FAILURE_MESSAGE, &f.causes),
        }
    }
}

/// Why deleting a status failed.
#[derive(Debug)]
pub enum DeleteStatusError {
    NotFound,
    InUse,
    Storage(StorageFailure),
}

impl DeleteStatusError {
    pub open spec fn classify(f: StorageFailure) -> Self {
        if is_status_referenced(f) {
            DeleteStatusError::InUse
        } else if f.signal == FailureSignal::RowNotFound {
            DeleteStatusError::NotFound
        } else {
            DeleteStatusError::Storage(f)
        }
    }

    pub fn from_failure(f: StorageFailure) -> (r: Self)
        ensures
            r == Self::classify(f),
    {
        if f.is_violation_of(FailureSignal::ForeignKeyViolation, ISSUES_STATUS_FK) {
            DeleteStatusError::InUse
        } else if f.signal == FailureSignal::RowNotFound {
            DeleteStatusError::NotFound
        } else {
            DeleteStatusError::Storage(f)
        }
    }
}

impl ResponseStatusCode for DeleteStatusError {
    open spec fn status_spec(&self) -> u16 {
        match self {
            DeleteStatusError::NotFound => NOT_FOUND,
            DeleteStatusError::InUse => FORBIDDEN,
            DeleteStatusError::Storage(_) => INTERNAL_SERVER_ERROR,
        }
    }

    fn status_code(&self) -> (r: u16) {
        match self {
            DeleteStatusError::NotFound => NOT_FOUND,
            DeleteStatusError::InUse => FORBIDDEN,
            DeleteStatusError::Storage(_) => INTERNAL_SERVER_ERROR,
        }
    }
}

impl CauseChain for DeleteStatusError {
    open spec fn chain_spec(&self) -> Seq<Seq<char>> {
        match self {
            DeleteStatusError::NotFound => seq![NOT_FOUND_MESSAGE@],
            DeleteStatusError::InUse => seq![IN_USE_MESSAGE@],
            DeleteStatusError::Storage(f) => storage_chain(*f),
        }
    }

    fn cause_chain(&self) -> (r: Vec<String>) {
        match self {
            DeleteStatusError::NotFound => single_chain(NOT_FOUND_MESSAGE),
            DeleteStatusError::InUse => single_chain(IN_USE_MESSAGE),
            DeleteStatusError::Storage(f) => chain_of(STORAGE_FAILURE_MESSAGE, &f.causes),
        }
    }
}

/// Why patching a status failed.
#[derive(Debug)]
pub enum PatchStatusError {
    NoFieldsPatched,
    AlreadyExists,
    NotFound,
    Storage(StorageFailure),
}

impl PatchStatusError {
    pub open spec fn classify(f: StorageFailure) -> Self {
        if is_name_taken(f) {
            PatchStatusError::AlreadyExists
        } else if f.signal == FailureSignal::RowNotFound {
            PatchStatusError::NotFound
        } else {
            PatchStatusError::Storage(f)
        }
    }

    pub fn from_failure(f: StorageFailure) -> (r: Self)
        ensures
            r == Self::classify(f),
    {
        if f.is_violation_of(FailureSignal::UniqueViolation, NAME_UNIQUE_CONSTRAINT) {
            PatchStatusError::AlreadyExists
        } else if f.signal == FailureSignal::RowNotFound {
            PatchStatusError::NotFound
        } else {
            PatchStatusError::Storage(f)
        }
    }
}

impl ResponseStatusCode for PatchStatusError {
    open spec fn status_spec(&self) -> u16 {
        match self {
            PatchStatusError::NoFieldsPatched => BAD_REQUEST,
            PatchStatusError::AlreadyExists => FORBIDDEN,
            PatchStatusError::NotFound => NOT_FOUND,
            PatchStatusError::Storage(_) => INTERNAL_SERVER_ERROR,
        }
    }

    fn status_code(&self) -> (r: u16) {
        match self {
            PatchStatusError::NoFieldsPatched => BAD_REQUEST,
            PatchStatusError::AlreadyExists => FORBIDDEN,
            PatchStatusError::NotFound => NOT_FOUND,
            PatchStatusError::Storage(_) => INTERNAL_SERVER_ERROR,
        }
    }
}

impl CauseChain for PatchStatusError {
    open spec fn chain_spec(&self) -> Seq<Seq<char>> {
        match self {
            PatchStatusError::NoFieldsPatched => seq![NO_FIELDS_PATCHED_MESSAGE@],
            PatchStatusError::AlreadyExists => seq![ALREADY_EXISTS_MESSAGE@],
            PatchStatusError::NotFound => seq![NOT_FOUND_MESSAGE@],
            PatchStatusError::Storage(f) => storage_chain(*f),
        }
    }

    fn cause_chain(&self) -> (r: Vec<String>) {
        match self {
            PatchStatusError::NoFieldsPatched => single_chain(NO_FIELDS_PATCHED_MESSAGE),
            PatchStatusError::AlreadyExists => single_chain(ALREADY_EXISTS_MESSAGE),
            PatchStatusError::NotFound => single_chain(NOT_FOUND_MESSAGE),
            PatchStatusError::Storage(f) => chain_of(STORAGE_FAILURE_MESSAGE, &f.causes),
        }
    }
}

/// A status as it is sent.
#[derive(Debug, Clone)]
pub struct StatusResponse {
    pub id: i64,
    pub name: String,
}

impl ResponseStatusCode for StatusResponse {
    open spec fn status_spec(&self) -> u16 {
        OK
    }

    fn status_code(&self) -> (r: u16) {
        OK
    }
}

/// All statuses, as they are sent.
#[derive(Debug, Clone)]
pub struct StatusListResponse {
    pub list: Vec<StatusResponse>,
}

impl ResponseStatusCode for StatusListResponse {
    open spec fn status_spec(&self) -> u16 {
        OK
    }

    fn status_code(&self) -> (r: u16) {
        OK
    }
}

/// What a request to create a status carries.
#[derive(Debug, Clone)]
pub struct NewStatusPayload {
    pub name: String,
}

/// What a request to patch a status carries: each field that is to change.
#[derive(Debug, Clone)]
pub struct PatchStatusPayload {
    pub name: Option<String>,
}

pub const INSERT_SQL: &'static str = "INSERT INTO statuses (name) VALUES (?) RETURNING id";

pub const SELECT_NAME_BY_ID_SQL: &'static str = "SELECT name FROM statuses WHERE id = ?";

pub const SELECT_ID_BY_NAME_SQL: &'static str = "SELECT id FROM statuses WHERE name = ?";

pub const DELETE_BY_ID_SQL: &'static str = "DELETE FROM statuses WHERE id = ? RETURNING name";

pub const DELETE_BY_NAME_SQL: &'static str = "DELETE FROM statuses WHERE name = ? RETURNING id";

pub const RENAME_BY_ID_SQL: &'static str = "UPDATE statuses SET name = ? WHERE id = ? RETURNING id";

pub const RENAME_BY_NAME_SQL: &'static str = "UPDATE statuses SET name = ? WHERE name = ? RETURNING id";

pub const SELECT_ALL_SQL: &'static str = "SELECT id, name FROM statuses ORDER BY id";

/// One statement on the statuses table, with the values bound to it. Each
/// but the last yields exactly one row, or fails with a missing row.
#[derive(Debug, Clone)]
pub enum StatusQuery {
    Insert { name: String },
    SelectNameById { id: i64 },
    SelectIdByName { name: String },
    DeleteById { id: i64 },
    DeleteByName { name: String },
    RenameById { id: i64, new_name: String },
    RenameByName { name: String, new_name: String },
    SelectAll,
}

impl StatusQuery {
    pub open spec fn sql_spec(&self) -> Seq<char> {
        match self {
            StatusQuery::Insert { .. } => INSERT_SQL@,
            StatusQuery::SelectNameById { .. } => SELECT_NAME_BY_ID_SQL@,
            StatusQuery::SelectIdByName { .. } => SELECT_ID_BY_NAME_SQL@,
            StatusQuery::DeleteById { .. } => DELETE_BY_ID_SQL@,
            StatusQuery::DeleteByName { .. } => DELETE_BY_NAME_SQL@,
            StatusQuery::RenameById { .. } => RENAME_BY_ID_SQL@,
            StatusQuery::RenameByName { .. } => RENAME_BY_NAME_SQL@,
            StatusQuery::SelectAll => SELECT_ALL_SQL@,
        }
    }

    /// The statement's text; its parameters are bound in the order in which
    /// the variant lists them, the new name first where there is one.
    pub fn sql(&self) -> (r: &'static str)
        ensures
            r@ == self.sql_spec(),
    {
        match self {
            StatusQuery::Insert { .. } => INSERT_SQL,
            StatusQuery::SelectNameById { .. } => SELECT_NAME_BY_ID_SQL,
            StatusQuery::SelectIdByName { .. } => SELECT_ID_BY_NAME_SQL,
            StatusQuery::DeleteById { .. } => DELETE_BY_ID_SQL,
            StatusQuery::DeleteByName { .. } => DELETE_BY_NAME_SQL,
            StatusQuery::RenameById { .. } => RENAME_BY_ID_SQL,
            StatusQuery::RenameByName { .. } => RENAME_BY_NAME_SQL,
            StatusQuery::SelectAll => SELECT_ALL_SQL,
        }
    }
}

/// Creating a status: the id that the engine assigned, with the name given;
/// or the classified failure.
pub fn post_new(name: String, outcome: Result<i64, StorageFailure>) -> (r: ApiResponse<StatusResponse, NewStatusError>)
    ensures
        r.result == match outcome {
            Ok(id) => Ok(StatusResponse { id, name }),
            Err(f) => Err(NewStatusError::classify(f)),
        },
{
    match outcome {
        Ok(id) => ApiResponse::new(Ok(StatusResponse { id, name })),
        Err(f) => ApiResponse::new(Err(NewStatusError::from_failure(f))),
    }
}

/// Reading a status by id: its name; or the classified failure.
pub fn get_by_id(id: i64, outcome: Result<String, StorageFailure>) -> (r: ApiResponse<StatusResponse, GetStatusError>)
    ensures
        r.result == match outcome {
            Ok(name) => Ok(StatusResponse { id, name }),
            Err(f) => Err(GetStatusError::classify(f)),
        },
{
    match outcome {
        Ok(name) => ApiResponse::new(Ok(StatusResponse { id, name })),
        Err(f) => ApiResponse::new(Err(GetStatusError::from_failure(f))),
    }
}

/// Reading a status by name: its id; or the classified failure.
pub fn get_by_name(name: String, outcome: Result<i64, StorageFailure>) -> (r: ApiResponse<StatusResponse, GetStatusError>)
    ensures
        r.result == match outcome {
            Ok(id) => Ok(StatusResponse { id, name }),
            Err(f) => Err(GetStatusError::classify(f)),
        },
{
    match outcome {
        Ok(id) => ApiResponse::new(Ok(StatusResponse { id, name })),
        Err(f) => ApiResponse::new(Err(GetStatusError::from_failure(f))),
    }
}

/// Deleting a status by id: the name it had; or the classified failure.
pub fn delete_by_id(id: i64, outcome: Result<String, StorageFailure>) -> (r: ApiResponse<StatusResponse, DeleteStatusError>)
    ensures
        r.result == match outcome {
            Ok(name) => Ok(StatusResponse { id, name }),
            Err(f) => Err(DeleteStatusError::classify(f)),
        },
{
    match outcome {
        Ok(name) => ApiResponse::new(Ok(StatusResponse { id, name })),
        Err(f) => ApiResponse::new(Err(DeleteStatusError::from_failure(f))),
    }
}

/// Deleting a status by name: the id it had; or the classified failure.
pub fn delete_by_name(name: String, outcome: Result<i64, StorageFailure>) -> (r: ApiResponse<StatusResponse, DeleteStatusError>)
    ensures
        r.result == match outcome {
            Ok(id) => Ok(StatusResponse { id, name }),
            Err(f) => Err(DeleteStatusError::classify(f)),
        },
{
    match outcome {
        Ok(id) => ApiResponse::new(Ok(StatusResponse { id, name })),
        Err(f) => ApiResponse::new(Err(DeleteStatusError::from_failure(f))),
    }
}

/// What a patch does next: run a statement on the storage engine, or answer
/// at once without touching it.
#[derive(Debug)]
pub enum PatchStep {
    /// Run `query`, which renames the status to `new_name`.
    Run { query: StatusQuery, new_name: String },
    Respond(ApiResponse<StatusResponse, PatchStatusError>),
}

/// Patching the status `id`: the statement that renames it, or, when the
/// payload changes no field, the answer `NoFieldsPatched` (bad request) with
/// no statement run at all.
pub fn patch_by_id(id: i64, payload: PatchStatusPayload) -> (r: PatchStep)
    ensures
        match payload.name {
            Some(new_name) => r == (PatchStep::Run { query: StatusQuery::RenameById { id, new_name }, new_name }),
            None => (r matches PatchStep::Respond(response)
                && response.result == Err::<StatusResponse, PatchStatusError>(PatchStatusError::NoFieldsPatched)
                && response.status_spec() == BAD_REQUEST),
        },
{
    match payload.name {
        Some(new_name) => PatchStep::Run { query: StatusQuery::RenameById { id, new_name: new_name.clone() }, new_name },
        None => PatchStep::Respond(ApiResponse::new(Err(PatchStatusError::NoFieldsPatched))),
    }
}

/// Patching the status called `name`: the statement that renames it, or,
/// when the payload changes no field, the answer `NoFieldsPatched` (bad
/// request) with no statement run at all.
pub fn patch_by_name(name: String, payload: PatchStatusPayload) -> (r: PatchStep)
    ensures
        match payload.name {
            Some(new_name) => r == (PatchStep::Run { query: StatusQuery::RenameByName { name, new_name }, new_name }),
            None => (r matches PatchStep::Respond(response)
                && response.result == Err::<StatusResponse, PatchStatusError>(PatchStatusError::NoFieldsPatched)
                && response.status_spec() == BAD_REQUEST),
        },
{
    match payload.name {
        Some(new_name) => PatchStep::Run { query: StatusQuery::RenameByName { name, new_name: new_name.clone() }, new_name },
        None => PatchStep::Respond(ApiResponse::new(Err(PatchStatusError::NoFieldsPatched))),
    }
}

/// The end of a patch of the status `id` whose rename to `new_name` ran: the
/// status as it now is; or the classified failure.
pub fn finish_patch_by_id(id: i64, new_name: String, outcome: Result<i64, StorageFailure>) -> (r: ApiResponse<StatusResponse, PatchStatusError>)
    ensures
        r.result == match outcome {
            Ok(_) => Ok(StatusResponse { id, name: new_name }),
            Err(f) => Err(PatchStatusError::classify(f)),
        },
{
    match outcome {
        Ok(_) => ApiResponse::new(Ok(StatusResponse { id, name: new_name })),
        Err(f) => ApiResponse::new(Err(PatchStatusError::from_failure(f))),
    }
}

/// The end of a patch by name whose rename to `new_name` ran: the status's
/// id, with the new name; or the classified failure.
pub fn finish_patch_by_name(new_name: String, outcome: Result<i64, StorageFailure>) -> (r: ApiResponse<StatusResponse, PatchStatusError>)
    ensures
        r.result == match outcome {
            Ok(id) => Ok(StatusResponse { id, name: new_name }),
            Err(f) => Err(PatchStatusError::classify(f)),
        },
{
    match outcome {
        Ok(id) => ApiResponse::new(Ok(StatusResponse { id, name: new_name })),
        Err(f) => ApiResponse::new(Err(PatchStatusError::from_failure(f))),
    }
}

/// The list holds the rows, in their order.
pub open spec fn lists_rows(list: Seq<StatusResponse>, rows: Seq<(i64, String)>) -> bool {
    &&& list.len() == rows.len()
    &&& forall|i: int| 0 <= i < rows.len() ==> list[i].id == rows[i].0 && list[i].name == rows[i].1
}

/// Listing the statuses: one entry per row, in the order in which the rows
/// came (by id, as the statement asks); or the classified failure.
pub fn get_list(rows: Result<Vec<(i64, String)>, StorageFailure>) -> (r: ApiResponse<StatusListResponse, GetStatusError>)
    ensures
        match rows {
            Ok(rows) => r.result matches Ok(l) && lists_rows(l.list@, rows@),
            Err(f) => r.result == Err::<StatusListResponse, GetStatusError>(GetStatusError::classify(f)),
        },
{
    match rows {
        Ok(rows) => {
            let mut list: Vec<StatusResponse> = Vec::new();
            let mut i: usize = 0;
            while i < rows.len()
                invariant
                    i <= rows@.len(),
                    lists_rows(list@, rows@.take(i as int)),
                decreases rows@.len() - i,
            {
                let id = rows[i].0;
                let name = rows[i].1.clone();
                list.push(StatusResponse { id, name });
                i = i + 1;
            }
            assert(rows@.take(i as int) =~= rows@);
            ApiResponse::new(Ok(StatusListResponse { list }))
        },
        Err(f) => ApiResponse::new(Err(GetStatusError::from_failure(f))),
    }
}

/// A lookup, deletion or patch of a key that no row holds fails `NotFound`,
/// whichever of these operations it was.
pub proof fn lemma_missing_key_is_not_found(f: StorageFailure)
    requires
        f.signal == FailureSignal::RowNotFound,
    ensures
        GetStatusError::classify(f) == GetStatusError::NotFound,
        DeleteStatusError::classify(f) == DeleteStatusError::NotFound,
        PatchStatusError::classify(f) == PatchStatusError::NotFound,
{
}

/// A name that another status already holds makes a create, or a patch to
/// that name, fail `AlreadyExists`, and never a generic storage failure,
/// whether or not the engine reports the constraint's name.
pub proof fn lemma_taken_name_already_exists(f: StorageFailure)
    requires
        f.signal == FailureSignal::UniqueViolation,
        may_be_constraint(f, NAME_UNIQUE_CONSTRAINT@),
    ensures
        NewStatusError::classify(f) == NewStatusError::AlreadyExists,
        PatchStatusError::classify(f) == PatchStatusError::AlreadyExists,
{
}

/// Deleting a status that an issue still refers to fails `InUse`, whether or
/// not the engine reports the foreign key's name.
pub proof fn lemma_referenced_status_in_use(f: StorageFailure)
    requires
        f.signal == FailureSignal::ForeignKeyViolation,
        may_be_constraint(f, ISSUES_STATUS_FK@),
    ensures
        DeleteStatusError::classify(f) == DeleteStatusError::InUse,
{
}

} // verus!
