//! What the limiter reads of a request, and the identity it derives from it.

use vstd::prelude::*;

verus! {

/// The method of a request, as far as the limiter tells methods apart.
#[derive(Clone, Copy, Debug, PartialEq, Eq, Structural)]
pub enum Method {
    Get,
    Post,
    Put,
    Other,
}

/// A request as a mathematical value.
pub struct RequestModel {
    pub method: Method,
    pub path: Seq<char>,
    pub credential: Option<Seq<char>>,
}

/// The part of a request that decides its identity: the method, the path and
/// the credential, if the request carries one.
#[derive(Debug)]
pub struct RequestHead {
    pub method: Method,
    pub path: String,
    pub authorization: Option<String>,
}

impl View for RequestHead {
    type V = RequestModel;

    open spec fn view(&self) -> RequestModel {
        RequestModel {
            method: self.method,
            path: self.path@,
            credential: match self.authorization {
                Some(credential) => Some(credential@),
                None => None,
            },
        }
    }
}

/// What stands between the credential and the path in the identity of an
/// update.
pub open spec fn separator() -> Seq<char> {
    seq!['+']
}

/// The identity under which a request is counted. An update is counted for
/// the credential and the resource together, so that each resource has a
/// quota of its own; any other request is counted for the credential alone.
pub open spec fn identity_key(method: Method, credential: Seq<char>, path: Seq<char>) -> Seq<char> {
    if method == Method::Put {
        credential + separator() + path
    } else {
        credential
    }
}

impl RequestModel {
    /// The identity of the request, or `None` if it carries no credential.
    pub open spec fn identity(self) -> Option<Seq<char>> {
        match self.credential {
            Some(credential) => Some(identity_key(self.method, credential, self.path)),
            None => None,
        }
    }
}

/// Derives the identity under which a request is counted.
pub fn derive_key(method: Method, credential: &str, path: &str) -> (key: String)
    ensures
        key@ == identity_key(method, credential@, path@),
{
    let mut key = String::from_str(credential);
    match method {
        Method::Put => {
            proof {
                reveal_strlit("+");
            }
            assert("+"@ =~= separator());
            key.append("+");
            key.append(path);
        },
        _ => {},
    }
    key
}

impl RequestHead {
    /// The identity of the request, or `None` if it carries no credential.
    pub fn identity(&self) -> (key: Option<String>)
        ensures
            key is Some <==> self@.identity() is Some,
            key matches Some(k) ==> Some(k@) == self@.identity(),
    {
        match &self.authorization {
            Some(credential) => Some(derive_key(self.method, credential.as_str(), self.path.as_str())),
            None => None,
        }
    }
}

} // verus!
