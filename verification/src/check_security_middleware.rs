//! The security context of a request and how it is resolved: from the
//! session first, from the client certificate's subject second.

use vstd::prelude::*;
use vstd::string::StringExecFns;

use crate::errors::OrganizatorError;
use crate::text::{str_eq, text_view};

verus! {

/// The one path that needs no principal.
pub const LOGIN_PATH: &'static str = "/login";

/// The session field that holds the principal.
pub const SESSION_USER_KEY: &'static str = "username";

/// The request header in which the proxy hands on the subject of the
/// client's certificate.
pub const CLIENT_SUBJECT_HEADER: &'static str = "X-SSL-Client-S-DN";

/// Number of characters of a certificate subject that stand before the
/// principal: an attribute prefix such as `CN=`.
pub const SUBJECT_PREFIX_LEN: usize = 3;

/// The security context of one request: the principal, if there is one.
#[derive(Debug, Clone, PartialEq, Eq)]
pub struct Security {
    pub user_name: Option<String>,
}

impl View for Security {
    type V = Option<Seq<char>>;

    open spec fn view(&self) -> Option<Seq<char>> {
        match self.user_name {
            Some(name) => Some(name@),
            None => None,
        }
    }
}

impl Security {
    /// The context of a request made by `s`.
    pub fn from(s: &str) -> (r: Security)
        ensures
            r@ == Some(s@),
    {
        Security { user_name: Some(String::from_str(s)) }
    }

    /// The context that was attached to a request. Where none was, no
    /// principal was established: that is an authentication failure and
    /// never a default identity.
    pub fn get_security(attached: Option<&Security>) -> (r: Result<Security, OrganizatorError>)
        ensures
            match attached {
                Some(s) => r == Ok::<Security, OrganizatorError>(*s),
                None => r == Err::<Security, OrganizatorError>(OrganizatorError::Unauthorized),
            },
    {
        match attached {
            Some(s) => Ok(Security { user_name: s.user_name.clone() }),
            None => Err(OrganizatorError::Unauthorized),
        }
    }

    /// The name of the principal, empty where there is none.
    pub fn get_user_name(&self) -> (r: &str)
        ensures
            r@ == match self@ {
                Some(name) => name,
                None => Seq::<char>::empty(),
            },
    {
        match &self.user_name {
            Some(s) => s.as_str(),
            None => {
                proof {
                    reveal_strlit("");
                }
                ""
            },
        }
    }
}

/// The source that established a principal.
#[derive(Debug, Clone, Copy, PartialEq, Eq, Structural)]
pub enum Provenance {
    Session,
    Certificate,
}

/// How the resolution of a request ended.
#[derive(Debug, Clone, PartialEq, Eq)]
pub enum Resolution {
    /// The request goes to the login path: nothing is resolved and
    /// nothing is needed.
    Exempt,
    /// A principal was established.
    Resolved { principal: String, provenance: Provenance },
    /// No source gave a principal: the request is refused and goes no
    /// further.
    Unauthenticated,
}

/// A resolution over plain values.
pub enum ResolutionView {
    Exempt,
    Resolved { principal: Seq<char>, provenance: Provenance },
    Unauthenticated,
}

impl View for Resolution {
    type V = ResolutionView;

    open spec fn view(&self) -> ResolutionView {
        match *self {
            Resolution::Exempt => ResolutionView::Exempt,
            Resolution::Resolved { principal, provenance } => ResolutionView::Resolved {
                principal: principal@,
                provenance,
            },
            Resolution::Unauthenticated => ResolutionView::Unauthenticated,
        }
    }
}

impl ResolutionView {
    /// Whether the request goes on to the service behind the check: it
    /// does unless no principal could be established.
    pub open spec fn forwards(self) -> bool {
        !(self is Unauthenticated)
    }
}

impl Resolution {
    /// Whether the request goes on to the service behind the check.
    pub fn forwards(&self) -> (r: bool)
        ensures
            r == self@.forwards(),
    {
        match self {
            Resolution::Exempt => true,
            Resolution::Resolved { .. } => true,
            Resolution::Unauthenticated => false,
        }
    }

    /// The security context to attach to the request: that of the
    /// principal, where one was established, and none else.
    pub fn security(&self) -> (r: Option<Security>)
        ensures
            match self@ {
                ResolutionView::Resolved { principal, .. } => r is Some && r.unwrap()@ == Some(
                    principal,
                ),
                _ => r is None,
            },
    {
        match self {
            Resolution::Resolved { principal, .. } => Some(
                Security { user_name: Some(principal.clone()) },
            ),
            _ => None,
        }
    }

    /// The response class of a refused request; none for one that goes on.
    pub fn status(&self) -> (r: Option<crate::errors::Status>)
        ensures
            r == if self@.forwards() {
                None::<crate::errors::Status>
            } else {
                Some(crate::errors::Status::Unauthorized)
            },
    {
        if self.forwards() {
            None
        } else {
            Some(crate::errors::Status::Unauthorized)
        }
    }
}

/// The principal that a certificate subject names: what follows its
/// first three characters. A subject too short to hold the prefix names
/// nobody.
pub open spec fn subject_principal(subject: Seq<char>) -> Option<Seq<char>> {
    if subject.len() >= SUBJECT_PREFIX_LEN {
        Some(subject.subrange(SUBJECT_PREFIX_LEN as int, subject.len() as int))
    } else {
        None
    }
}

/// Extracts the principal from the subject of a client certificate.
pub fn principal_from_subject(subject: &str) -> (r: Option<String>)
    ensures
        match r {
            Some(p) => subject_principal(subject@) == Some(p@),
            None => subject_principal(subject@) is None,
        },
{
    let n: usize = subject.unicode_len();
    if n >= SUBJECT_PREFIX_LEN {
        Some(String::from_str(subject.substring_char(SUBJECT_PREFIX_LEN, n)))
    } else {
        None
    }
}

/// The resolution of a request, in strict order. The login path is
/// exempt. Else a session user that is present and not empty is the
/// principal. Else the principal is the one that the certificate subject
/// names. Else there is none.
pub open spec fn resolve_spec(
    path: Seq<char>,
    session_user: Option<Seq<char>>,
    subject: Option<Seq<char>>,
) -> ResolutionView {
    if path == LOGIN_PATH@ {
        ResolutionView::Exempt
    } else if session_user is Some && session_user.unwrap().len() > 0 {
        ResolutionView::Resolved {
            principal: session_user.unwrap(),
            provenance: Provenance::Session,
        }
    } else if subject is Some && subject_principal(subject.unwrap()) is Some {
        ResolutionView::Resolved {
            principal: subject_principal(subject.unwrap()).unwrap(),
            provenance: Provenance::Certificate,
        }
    } else {
        ResolutionView::Unauthenticated
    }
}

/// Resolves the security context of a request from its path, the user
/// that its session holds and the certificate subject that its header
/// carries.
pub fn resolve(path: &str, session_user: Option<&str>, subject: Option<&str>) -> (r: Resolution)
    ensures
        r@ == resolve_spec(path@, text_view(session_user), text_view(subject)),
{
    if str_eq(path, LOGIN_PATH) {
        return Resolution::Exempt;
    }
    if let Some(user) = session_user {
        if user.unicode_len() > 0 {
            return Resolution::Resolved {
                principal: String::from_str(user),
                provenance: Provenance::Session,
            };
        }
    }
    if let Some(dn) = subject {
        if let Some(principal) = principal_from_subject(dn) {
            return Resolution::Resolved { principal, provenance: Provenance::Certificate };
        }
    }
    Resolution::Unauthenticated
}

/// Makes the check that stands before a service.
pub struct CheckSecurity;

impl CheckSecurity {
    /// Puts the check before `service`.
    pub fn new_transform<S>(&self, service: S) -> (m: CheckSecurityMiddleware<S>)
        ensures
            m.service_spec() == service,
    {
        CheckSecurityMiddleware { service }
    }
}

/// A service with the check before it: a request reaches the service
/// only where its resolution forwards it.
pub struct CheckSecurityMiddleware<S> {
    service: S,
}

impl<S> CheckSecurityMiddleware<S> {
    /// The service behind the check.
    pub closed spec fn service_spec(&self) -> S {
        self.service
    }

    /// The service behind the check.
    pub fn service(&self) -> (s: &S)
        ensures
            *s == self.service_spec(),
    {
        &self.service
    }

    /// Decides on one request: the resolution says whether the request
    /// goes on to the service and with which security context.
    pub fn call(&self, path: &str, session_user: Option<&str>, subject: Option<&str>) -> (r:
        Resolution)
        ensures
            r@ == resolve_spec(path@, text_view(session_user), text_view(subject)),
    {
        resolve(path, session_user, subject)
    }
}

/// The session wins: with a session user that is not empty, the
/// principal is that user, whatever the certificate subject says.
pub proof fn lemma_session_precedes_certificate(
    path: Seq<char>,
    session_user: Seq<char>,
    subject: Option<Seq<char>>,
)
    requires
        path != LOGIN_PATH@,
        session_user.len() > 0,
    ensures
        resolve_spec(path, Some(session_user), subject) == (ResolutionView::Resolved {
            principal: session_user,
            provenance: Provenance::Session,
        }),
{
}

/// Without a session user and without a certificate subject, a request
/// to any path but the login path is refused and does not go on.
pub proof fn lemma_no_source_is_refused(path: Seq<char>)
    requires
        path != LOGIN_PATH@,
    ensures
        resolve_spec(path, None, None) == ResolutionView::Unauthenticated,
        !resolve_spec(path, None, None).forwards(),
{
}

/// The login path is exempt whatever the request carries.
pub proof fn lemma_login_path_is_exempt(
    session_user: Option<Seq<char>>,
    subject: Option<Seq<char>>,
)
    ensures
        resolve_spec(LOGIN_PATH@, session_user, subject) == ResolutionView::Exempt,
{
}

} // verus!
