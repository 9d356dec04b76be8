//! The user endpoints: profiles, registration, and the follow graph.

use vstd::prelude::*;
use crate::entities::api_response::{ApiError, ApiErrorView, ApiResponse};
use crate::entities::users::{UserCreatePayload, UserResponse};
use crate::identity::parsed_id;
use crate::middleware::auth::AuthUser;
use crate::models::follows::{
    after_follow,
    after_unfollow,
    attempt,
    check_distinct,
    decide,
    self_reference,
    state_of,
    EdgeOp,
    EdgeState,
    Edges,
    Follow,
    FollowError,
    FollowGraph,
};
use crate::models::users::{User, UserLookup};
use crate::password::{decided, hash, hashable, verification, HashError};

verus! {

/// What a lookup that found no user comes to: not found where no such user
/// is stored, an internal error where the storage failed.
pub open spec fn lookup_refusal(found: UserLookup) -> Option<ApiErrorView> {
    match found {
        UserLookup::Found(_) => None,
        UserLookup::Absent => Some(ApiErrorView::NotFound("Usuario no encontrado"@)),
        UserLookup::Fault => Some(ApiErrorView::InternalError("Error al consultar el usuario"@)),
    }
}

/// Answers a request for the profile of a user by id with what the storage
/// answered: the profile, not found, or an internal error where the storage
/// failed.
pub fn get_user_by_id(auth: &AuthUser, found: UserLookup) -> (r: Result<
    ApiResponse<UserResponse>,
    ApiError,
>)
    ensures
        match found {
            UserLookup::Found(user) => r matches Ok(response) && response.succeeded(None)
                && response.data->0.shows(user),
            _ => r matches Err(e) && Some(e@) == lookup_refusal(found),
        },
{
    match found {
        UserLookup::Found(user) => Ok(ApiResponse::success(UserResponse::of(user))),
        UserLookup::Absent => Err(ApiError::NotFound("Usuario no encontrado".to_owned())),
        UserLookup::Fault => Err(
            ApiError::InternalError("Error al consultar el usuario".to_owned()),
        ),
    }
}

/// The record of a new user, once the hasher has answered: id 0 and no
/// times, which the storage assigns, and the hash in place of the password.
pub fn new_user(payload: UserCreatePayload, hashed: Result<String, HashError>) -> (r: Result<
    User,
    ApiError,
>)
    ensures
        match hashed {
            Ok(password_hash) => r matches Ok(user) && user == (User {
                id: 0,
                username: payload.username,
                email: payload.email,
                password_hash,
                created_at: None,
                updated_at: None,
            }),
            Err(_) => r matches Err(e) && e@ == ApiErrorView::InternalError(
                "Error al hashear la contraseña"@,
            ),
        },
{
    match hashed {
        Ok(password_hash) => Ok(
            User {
                id: 0,
                username: payload.username,
                email: payload.email,
                password_hash,
                created_at: None,
                updated_at: None,
            },
        ),
        Err(_) => Err(ApiError::InternalError("Error al hashear la contraseña".to_owned())),
    }
}

/// Prepares the registration of a user: hashes the password under a fresh
/// salt and makes the record to store.
///
/// The call succeeds exactly where the password is short enough to be
/// hashed, and is an internal error otherwise. The record that comes back
/// holds the payload's name and email, and a hash that verifies against the
/// payload's password.
pub fn create_user(payload: UserCreatePayload) -> (r: Result<User, ApiError>)
    ensures
        r is Ok <==> hashable(payload.password@),
        match r {
            Ok(user) => {
                &&& user.id == 0
                &&& user.username == payload.username
                &&& user.email == payload.email
                &&& user.created_at is None
                &&& user.updated_at is None
                &&& verification(payload.password@, user.password_hash@) == decided(true)
            },
            Err(e) => e@ == ApiErrorView::InternalError("Error al hashear la contraseña"@),
        },
{
    let hashed = hash(payload.password.as_str());
    new_user(payload, hashed)
}

/// Answers a registration with what the storage made of the record: the
/// stored user without its password hash, or an internal error where the
/// storage failed.
pub fn user_created(stored: Option<User>) -> (r: Result<ApiResponse<UserResponse>, ApiError>)
    ensures
        match stored {
            Some(user) => r matches Ok(response) && response.succeeded(
                Some("Usuario creado exitosamente"@),
            ) && response.data->0.shows(user),
            None => r matches Err(e) && e@ == ApiErrorView::InternalError(
                "Error al crear el usuario"@,
            ),
        },
{
    match stored {
        Some(user) => Ok(
            ApiResponse::success_with_message(UserResponse::of(user), "Usuario creado exitosamente"),
        ),
        None => Err(ApiError::InternalError("Error al crear el usuario".to_owned())),
    }
}

/// Answers a request for the caller's own profile with what the storage
/// answered for the caller's id: a bad request where the identity spells no
/// id, whatever the storage said; else the profile, not found, or an internal
/// error where the storage failed.
pub fn get_my_profile(auth: &AuthUser, found: UserLookup) -> (r: Result<
    ApiResponse<UserResponse>,
    ApiError,
>)
    ensures
        match (parsed_id(auth.user_id@), found) {
            (None, _) => r matches Err(e) && e@ == ApiErrorView::BadRequest(
                "ID de usuario inválido"@,
            ),
            (Some(_), UserLookup::Found(user)) => r matches Ok(response) && response.succeeded(
                Some("Perfil obtenido exitosamente"@),
            ) && response.data->0.shows(user),
            (Some(_), _) => r matches Err(e) && Some(e@) == lookup_refusal(found),
        },
{
    match auth.numeric_id() {
        Err(e) => Err(e),
        Ok(_) => match found {
            UserLookup::Found(user) => Ok(
                ApiResponse::success_with_message(
                    UserResponse::of(user),
                    "Perfil obtenido exitosamente",
                ),
            ),
            UserLookup::Absent => Err(ApiError::NotFound("Usuario no encontrado".to_owned())),
            UserLookup::Fault => Err(
                ApiError::InternalError("Error al consultar el usuario".to_owned()),
            ),
        },
    }
}

/// Answers a request for a user's number of followers with what the storage
/// counted, `None` where it failed.
pub fn get_followers_count(count: Option<u64>) -> (r: Result<ApiResponse<u64>, ApiError>)
    ensures
        match count {
            Some(n) => r matches Ok(response) && response.is_success(
                n,
                Some("Contador de seguidores obtenido exitosamente"@),
            ),
            None => r matches Err(e) && e@ == ApiErrorView::InternalError(
                "Error al obtener el contador de seguidores"@,
            ),
        },
{
    match count {
        Some(n) => Ok(
            ApiResponse::success_with_message(n, "Contador de seguidores obtenido exitosamente"),
        ),
        None => Err(
            ApiError::InternalError("Error al obtener el contador de seguidores".to_owned()),
        ),
    }
}

/// What a follow or unfollow request waits for from the storage.
#[derive(Debug, Clone, Copy, PartialEq, Eq, Structural)]
pub enum Pending {
    /// Whether the edge is present.
    Lookup { op: EdgeOp, follower_id: u64, followed_id: u64 },
    /// The insertion of the edge, for a follow, or its deletion, for an
    /// unfollow.
    Write { op: EdgeOp, follower_id: u64, followed_id: u64 },
}

/// What the storage answered.
#[derive(Debug, Clone, Copy, PartialEq, Eq, Structural)]
pub enum StoreReply {
    /// The answer to a lookup.
    Found(bool),
    /// The write was done.
    Written,
    /// The write ran into the uniqueness constraint on the pair.
    Duplicate,
    /// The storage failed.
    Fault,
}

/// The next move of a follow or unfollow request.
#[derive(Debug, Clone, PartialEq, Eq)]
pub enum Step {
    /// Ask the storage, and resume with its reply.
    Ask(Pending),
    /// The request succeeded, with this message.
    Succeed(String),
    /// The request failed.
    Fail(ApiError),
}

/// A `Step` with its text as characters.
pub enum StepView {
    Ask(Pending),
    Succeed(Seq<char>),
    Fail(ApiErrorView),
}

impl View for Step {
    type V = StepView;

    open spec fn view(&self) -> StepView {
        match *self {
            Step::Ask(pending) => StepView::Ask(pending),
            Step::Succeed(message) => StepView::Succeed(message@),
            Step::Fail(e) => StepView::Fail(e@),
        }
    }
}

/// The message of a request that succeeded.
pub open spec fn done_message(op: EdgeOp) -> Seq<char> {
    match op {
        EdgeOp::Follow => "Usuario seguido exitosamente"@,
        EdgeOp::Unfollow => "Usuario dejado de seguir exitosamente"@,
    }
}

/// The status of a request that succeeded: a follow makes an edge and is
/// answered as created, an unfollow as done.
pub open spec fn done_status(op: EdgeOp) -> u16 {
    match op {
        EdgeOp::Follow => 201,
        EdgeOp::Unfollow => 200,
    }
}

/// The message of a request whose write failed.
pub open spec fn write_fault(op: EdgeOp) -> Seq<char> {
    match op {
        EdgeOp::Follow => "Error al seguir usuario"@,
        EdgeOp::Unfollow => "Error al dejar de seguir usuario"@,
    }
}

/// The first move of the request of the caller `identity` to follow or
/// unfollow the user `id`: a bad request where the identity spells no id or
/// spells `id` itself, before the storage is asked anything; else a lookup
/// of the edge.
pub open spec fn begun(op: EdgeOp, identity: Seq<char>, id: u64) -> StepView {
    match parsed_id(identity) {
        None => StepView::Fail(ApiErrorView::BadRequest("ID de usuario inválido"@)),
        Some(follower_id) => if follower_id == id {
            StepView::Fail(
                ApiErrorView::BadRequest(self_reference(op).reason()),
            )
        } else {
            StepView::Ask(Pending::Lookup { op, follower_id, followed_id: id })
        },
    }
}

/// The move that follows the storage's reply to what was pending.
///
/// After a lookup the state machine of the pair decides: a refusal is a bad
/// request with the refusal's reason, and else the write is asked for. After
/// a write the request is done; an insertion that ran into the uniqueness
/// constraint lost a race against the same follow, and is refused as that
/// follow would be. A reply that does not answer what was pending counts as a
/// storage fault.
pub open spec fn resumed(pending: Pending, reply: StoreReply) -> StepView {
    match pending {
        Pending::Lookup { op, follower_id, followed_id } => match reply {
            StoreReply::Found(present) => match attempt(
                op,
                follower_id,
                followed_id,
                if present {
                    EdgeState::Present
                } else {
                    EdgeState::Absent
                },
            ) {
                Ok(_) => StepView::Ask(Pending::Write { op, follower_id, followed_id }),
                Err(refusal) => StepView::Fail(ApiErrorView::BadRequest(refusal.reason())),
            },
            _ => StepView::Fail(ApiErrorView::InternalError("Error al verificar seguimiento"@)),
        },
        Pending::Write { op, follower_id, followed_id } => match (reply, op) {
            (StoreReply::Written, _) => StepView::Succeed(done_message(op)),
            (StoreReply::Duplicate, EdgeOp::Follow) => StepView::Fail(
                ApiErrorView::BadRequest("already following"@),
            ),
            _ => StepView::Fail(ApiErrorView::InternalError(write_fault(op))),
        },
    }
}

/// A refusal of the graph as the client is told: a bad request with the
/// refusal's reason.
pub fn refusal_to_error(refusal: FollowError) -> (e: ApiError)
    ensures
        e@ == ApiErrorView::BadRequest(refusal@.reason()),
{
    match refusal {
        FollowError::InvalidOperation(reason) => ApiError::BadRequest(reason),
        FollowError::Conflict(reason) => ApiError::BadRequest(reason),
    }
}

/// Begins the request of `auth` to follow or unfollow the user `id`.
pub fn begin(op: EdgeOp, auth: &AuthUser, id: u64) -> (step: Step)
    ensures
        step@ == begun(op, auth.user_id@, id),
{
    match auth.numeric_id() {
        Err(e) => Step::Fail(e),
        Ok(follower_id) => match check_distinct(op, follower_id, id) {
            Err(refusal) => Step::Fail(refusal_to_error(refusal)),
            Ok(()) => Step::Ask(Pending::Lookup { op, follower_id, followed_id: id }),
        },
    }
}

/// Resumes a request with the storage's reply to what was pending.
pub fn resume(pending: Pending, reply: StoreReply) -> (step: Step)
    ensures
        step@ == resumed(pending, reply),
{
    match pending {
        Pending::Lookup { op, follower_id, followed_id } => match reply {
            StoreReply::Found(present) => match decide(
                op,
                follower_id,
                followed_id,
                EdgeState::from_presence(present),
            ) {
                Ok(_) => Step::Ask(Pending::Write { op, follower_id, followed_id }),
                Err(refusal) => Step::Fail(refusal_to_error(refusal)),
            },
            _ => Step::Fail(ApiError::InternalError("Error al verificar seguimiento".to_owned())),
        },
        Pending::Write { op, follower_id, followed_id } => match (reply, op) {
            (StoreReply::Written, EdgeOp::Follow) => Step::Succeed(
                "Usuario seguido exitosamente".to_owned(),
            ),
            (StoreReply::Written, EdgeOp::Unfollow) => Step::Succeed(
                "Usuario dejado de seguir exitosamente".to_owned(),
            ),
            (StoreReply::Duplicate, EdgeOp::Follow) => Step::Fail(
                ApiError::BadRequest("already following".to_owned()),
            ),
            (_, EdgeOp::Follow) => Step::Fail(
                ApiError::InternalError("Error al seguir usuario".to_owned()),
            ),
            (_, EdgeOp::Unfollow) => Step::Fail(
                ApiError::InternalError("Error al dejar de seguir usuario".to_owned()),
            ),
        },
    }
}

/// The status that goes with the answer of a request that succeeded.
pub fn success_status(op: EdgeOp) -> (code: u16)
    ensures
        code == done_status(op),
{
    match op {
        EdgeOp::Follow => 201,
        EdgeOp::Unfollow => 200,
    }
}

/// The answer of a request that is over: the empty success envelope with the
/// message, or the error. `None` for a request that still waits.
pub fn finish(step: Step) -> (r: Option<Result<ApiResponse<()>, ApiError>>)
    ensures
        match step {
            Step::Ask(_) => r is None,
            Step::Succeed(message) => r matches Some(Ok(response)) && response.is_success(
                (),
                Some(message@),
            ),
            Step::Fail(e) => r matches Some(Err(err)) && err == e,
        },
{
    match step {
        Step::Ask(_) => None,
        Step::Succeed(message) => Some(Ok(ApiResponse::success_with_message((), message.as_str()))),
        Step::Fail(e) => Some(Err(e)),
    }
}

/// What the graph held in memory replies to what is pending.
///
/// A lookup reports whether the edge is present and leaves the graph alone.
/// A write does what the graph allows: an insertion that the graph refuses
/// because the edge is present is a duplicate; a deletion of an absent edge
/// deletes nothing and is done; a write on a pair of one user with
/// themselves is a fault.
pub open spec fn answered(pending: Pending, edges: Edges) -> StoreReply {
    match pending {
        Pending::Lookup { op, follower_id, followed_id } => StoreReply::Found(
            edges.contains_key((follower_id, followed_id)),
        ),
        Pending::Write { op, follower_id, followed_id } => if follower_id == followed_id {
            StoreReply::Fault
        } else if op == EdgeOp::Follow && edges.contains_key((follower_id, followed_id)) {
            StoreReply::Duplicate
        } else {
            StoreReply::Written
        },
    }
}

/// The edges after the graph has replied to what was pending.
pub open spec fn after_answer(
    pending: Pending,
    edges: Edges,
    now: i64,
) -> Edges {
    match pending {
        Pending::Lookup { op, follower_id, followed_id } => edges,
        Pending::Write { op: EdgeOp::Follow, follower_id, followed_id } => after_follow(
            edges,
            follower_id,
            followed_id,
            now,
        ),
        Pending::Write { op: EdgeOp::Unfollow, follower_id, followed_id } => after_unfollow(
            edges,
            follower_id,
            followed_id,
        ),
    }
}

/// Lets the graph held in memory reply to what is pending, at the time `now`.
pub fn answer(pending: Pending, graph: &mut FollowGraph, now: i64) -> (reply: StoreReply)
    ensures
        reply == answered(pending, old(graph)@),
        final(graph)@ == after_answer(pending, old(graph)@, now),
{
    match pending {
        Pending::Lookup { op, follower_id, followed_id } => StoreReply::Found(
            Follow::edge_exists(follower_id, followed_id, graph),
        ),
        Pending::Write { op: EdgeOp::Follow, follower_id, followed_id } => match Follow::create(
            follower_id,
            followed_id,
            graph,
            now,
        ) {
            Ok(_) => StoreReply::Written,
            Err(FollowError::Conflict(_)) => StoreReply::Duplicate,
            Err(FollowError::InvalidOperation(_)) => StoreReply::Fault,
        },
        Pending::Write { op: EdgeOp::Unfollow, follower_id, followed_id } => match Follow::delete(
            follower_id,
            followed_id,
            graph,
        ) {
            Ok(()) => StoreReply::Written,
            Err(FollowError::Conflict(_)) => StoreReply::Written,
            Err(FollowError::InvalidOperation(_)) => StoreReply::Fault,
        },
    }
}

/// What a whole request of the caller `identity` comes to on `edges`: a bad
/// request where the identity spells no id; else the success message where
/// the graph allows the operation, and a bad request with the graph's reason
/// where it refuses.
pub open spec fn served(
    op: EdgeOp,
    identity: Seq<char>,
    id: u64,
    edges: Edges,
) -> Result<Seq<char>, ApiErrorView> {
    match parsed_id(identity) {
        None => Err(ApiErrorView::BadRequest("ID de usuario inválido"@)),
        Some(follower_id) => match attempt(op, follower_id, id, state_of(edges, follower_id, id)) {
            Ok(_) => Ok(done_message(op)),
            Err(refusal) => Err(ApiErrorView::BadRequest(refusal.reason())),
        },
    }
}

/// The edges after a whole request of the caller `identity` at `now`.
pub open spec fn after_request(
    op: EdgeOp,
    identity: Seq<char>,
    id: u64,
    edges: Edges,
    now: i64,
) -> Edges {
    match (parsed_id(identity), op) {
        (None, _) => edges,
        (Some(follower_id), EdgeOp::Follow) => after_follow(edges, follower_id, id, now),
        (Some(follower_id), EdgeOp::Unfollow) => after_unfollow(edges, follower_id, id),
    }
}

/// Runs a whole request against the graph held in memory: begins it, and
/// resumes it with the graph's replies until it is over.
fn serve(op: EdgeOp, auth: &AuthUser, id: u64, graph: &mut FollowGraph, now: i64) -> (r: Result<
    ApiResponse<()>,
    ApiError,
>)
    ensures
        final(graph)@ == after_request(op, auth.user_id@, id, old(graph)@, now),
        match served(op, auth.user_id@, id, old(graph)@) {
            Ok(message) => r matches Ok(response) && response.is_success((), Some(message)),
            Err(refusal) => r matches Err(e) && e@ == refusal,
        },
{
    let first = begin(op, auth, id);
    let second = match first {
        Step::Ask(pending) => {
            let reply = answer(pending, graph, now);
            resume(pending, reply)
        },
        over => over,
    };
    let third = match second {
        Step::Ask(pending) => {
            let reply = answer(pending, graph, now);
            resume(pending, reply)
        },
        over => over,
    };
    match finish(third) {
        Some(r) => r,
        None => vstd::pervasive::unreached(),
    }
}

/// Serves the request of `auth` to follow the user `id` at the time `now`,
/// against the graph held in memory.
///
/// A caller whose identity spells no id, who is `id` themselves, or who
/// follows `id` already gets a bad request, and the graph stays as it was.
/// Otherwise the edge joins the graph, with `now` as its creation time.
pub fn follow_user(auth: &AuthUser, id: u64, graph: &mut FollowGraph, now: i64) -> (r: Result<
    ApiResponse<()>,
    ApiError,
>)
    ensures
        final(graph)@ == after_request(EdgeOp::Follow, auth.user_id@, id, old(graph)@, now),
        match served(EdgeOp::Follow, auth.user_id@, id, old(graph)@) {
            Ok(message) => r matches Ok(response) && response.is_success((), Some(message)),
            Err(refusal) => r matches Err(e) && e@ == refusal,
        },
{
    serve(EdgeOp::Follow, auth, id, graph, now)
}

/// Serves the request of `auth` to stop following the user `id`, against the
/// graph held in memory.
///
/// A caller whose identity spells no id, who is `id` themselves, or who does
/// not follow `id` gets a bad request, and the graph stays as it was.
/// Otherwise the edge leaves the graph.
pub fn unfollow_user(auth: &AuthUser, id: u64, graph: &mut FollowGraph) -> (r: Result<
    ApiResponse<()>,
    ApiError,
>)
    ensures
        final(graph)@ == after_request(EdgeOp::Unfollow, auth.user_id@, id, old(graph)@, 0),
        match served(EdgeOp::Unfollow, auth.user_id@, id, old(graph)@) {
            Ok(message) => r matches Ok(response) && response.is_success((), Some(message)),
            Err(refusal) => r matches Err(e) && e@ == refusal,
        },
{
    serve(EdgeOp::Unfollow, auth, id, graph, 0)
}

} // verus!
