//! What the sign-in commands keep in the local store. The credential itself
//! lives in the keychain of the operating system and never comes here.

use crate::models::{AuthResult, IdentityView};
use crate::strings::{clone_opt, opt_text};
use crate::AppState;
use vstd::prelude::*;

verus! {

/// The identity record after a sign-in.
pub open spec fn signed_in(
    identity: IdentityView,
    server_url: Seq<char>,
    username: Seq<char>,
) -> IdentityView {
    IdentityView { server_url, username: Some(username), ..identity }
}

/// Records the server and the user of a sign-in.
pub fn store_oauth_token(server_url: String, username: String, state: &mut AppState)
    ensures
        final(state).db@ == old(state).db@.with_identity(
            signed_in(old(state).db@.identity, server_url@, username@),
        ),
        final(state).sync == old(state).sync,
{
    let mut identity = state.db.identity().clone();
    identity.server_url = server_url;
    identity.username = Some(username);
    state.db.set_identity(identity);
}

/// Says whether somebody is signed in, given the credential that the
/// keychain holds, and if so to which server and under which name.
pub fn is_authenticated(token: Option<&str>, state: &AppState) -> (r: AuthResult)
    ensures
        r.authenticated == (token is Some && token->0@.len() > 0),
        r.authenticated ==> opt_text(r.server_url) == Some(state.db@.identity.server_url)
            && opt_text(r.username) == state.db@.identity.username,
        !r.authenticated ==> r.server_url is None && r.username is None,
{
    let present = match token {
        Some(t) => !t.is_empty(),
        None => false,
    };
    if present {
        let identity = state.db.identity();
        AuthResult {
            authenticated: true,
            server_url: Some(identity.server_url.clone()),
            username: clone_opt(&identity.username),
        }
    } else {
        AuthResult { authenticated: false, server_url: None, username: None }
    }
}

} // verus!
