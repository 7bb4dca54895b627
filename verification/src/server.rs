//! The two operations as a transport layer sees them: a request comes in,
//! a status and a message go out.

use vstd::prelude::*;
use vstd::string::*;
use crate::domain::{
    login_outcome, register_outcome, Hasher, Service, ServiceError, User, UserStore,
};

verus! {

/// The body of every reply.
#[derive(Debug)]
pub struct Response {
    pub message: String,
}

/// A request to register an account.
#[derive(Debug)]
pub struct RegisterRequest {
    pub email: String,
    pub password: String,
}

/// A request to log in.
#[derive(Debug)]
pub struct LoginRequest {
    pub email: String,
    pub password: String,
}

/// The status of a reply.
#[derive(Clone, Copy, Debug, PartialEq, Eq, Structural)]
pub enum Status {
    /// The request was carried out.
    Success,
    /// The request was turned down for what it holds.
    BadRequest,
    /// The store failed.
    ServerError,
}

/// A status with the body that goes with it.
#[derive(Debug)]
pub struct Reply {
    pub status: Status,
    pub body: Response,
}

/// The status that an error is reported under: a failure of the store as
/// the server's, every other error as a bad request.
pub open spec fn error_status(e: ServiceError) -> Status {
    match e {
        ServiceError::Store(_) => Status::ServerError,
        _ => Status::BadRequest,
    }
}

/// The message of a successful login.
pub open spec fn welcome_text(user: User) -> Seq<char> {
    "Login successful. User id = "@ + user.id@ + ", User = "@ + user.email@
}

/// `reply` is the reply to a registration for which the service returned
/// `result`.
pub open spec fn is_register_reply(result: Result<(), ServiceError>, reply: Reply) -> bool {
    match result {
        Ok(()) => reply.status == Status::Success && reply.body.message@ == "Success ! "@,
        Err(e) => reply.status == error_status(e) && reply.body.message@ == e.message_text(),
    }
}

/// `reply` is the reply to a login for which the service returned `result`.
pub open spec fn is_login_reply(result: Result<User, ServiceError>, reply: Reply) -> bool {
    match result {
        Ok(user) => reply.status == Status::Success && reply.body.message@ == welcome_text(user),
        Err(e) => reply.status == error_status(e) && reply.body.message@ == e.message_text(),
    }
}

/// The reply to a failed request: the error's status and its message.
pub fn error_reply(e: &ServiceError) -> (reply: Reply)
    ensures
        reply.status == error_status(*e),
        reply.body.message@ == e.message_text(),
{
    let status = match e {
        ServiceError::Store(_) => Status::ServerError,
        _ => Status::BadRequest,
    };
    Reply { status, body: Response { message: e.message() } }
}

/// The reply to a registration, from what the service returned for it.
pub fn register_reply(result: &Result<(), ServiceError>) -> (reply: Reply)
    ensures
        is_register_reply(*result, reply),
{
    match result {
        Ok(()) => Reply {
            status: Status::Success,
            body: Response { message: "Success ! ".to_owned() },
        },
        Err(e) => error_reply(e),
    }
}

/// The reply to a login, from what the service returned for it.
pub fn login_reply(result: &Result<User, ServiceError>) -> (reply: Reply)
    ensures
        is_login_reply(*result, reply),
{
    match result {
        Ok(user) => {
            let mut message = "Login successful. User id = ".to_owned();
            message.append(user.id.as_str());
            message.append(", User = ");
            message.append(user.email.as_str());
            Reply { status: Status::Success, body: Response { message } }
        },
        Err(e) => error_reply(e),
    }
}

/// Registers the account that `req` asks for and builds the reply: the
/// service's records change as `Service::register` says, and the reply is
/// the one for its result.
pub fn register<S: UserStore, H: Hasher>(
    req: &RegisterRequest,
    service: &mut Service<S, H>,
) -> (reply: Reply)
    ensures
        final(service).hasher() == old(service).hasher(),
        exists|result: Result<(), ServiceError>|
            {
                &&& #[trigger] is_register_reply(result, reply)
                &&& register_outcome(
                    old(service).hasher(),
                    old(service).records(),
                    req.email@,
                    req.password@,
                    result,
                    final(service).records(),
                )
            },
{
    let result = service.register(req.email.as_str(), req.password.as_str());
    register_reply(&result)
}

/// Logs in with what `req` holds and builds the reply: the one for the
/// result of `Service::login`.
pub fn login<S: UserStore, H: Hasher>(req: &LoginRequest, service: &Service<S, H>) -> (reply:
    Reply)
    ensures
        exists|result: Result<User, ServiceError>|
            {
                &&& #[trigger] is_login_reply(result, reply)
                &&& login_outcome(
                    service.hasher(),
                    service.records(),
                    req.email@,
                    req.password@,
                    result,
                )
            },
{
    let result = service.login(req.email.as_str(), req.password.as_str());
    login_reply(&result)
}

} // verus!
