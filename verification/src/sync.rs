//! Compute halves of the workspace-sync client: whether sync is configured,
//! and the endpoints a configured server is called on.
//!
//! Reading the settings rows and the network calls themselves stay in the
//! embedding application.

use vstd::prelude::*;

use crate::models::Setting;
use crate::sanitize::strip_back;
use crate::sanitize::strip_char_back;
use crate::text::from_chars;
use crate::text::to_chars;

verus! {

/// Reads the sync configuration from its two settings rows: configured
/// exactly when both the server URL and the token are present and non-empty.
pub fn sync_config_of(url: Option<Setting>, token: Option<Setting>) -> (r: Option<(
    String,
    String,
)>)
    ensures
        r is Some <==> (url is Some && token is Some && url->0.value@.len() > 0
            && token->0.value@.len() > 0),
        r is Some ==> (r->0).0 == url->0.value && (r->0).1 == token->0.value,
{
    match (url, token) {
        (Option::Some(u), Option::Some(t)) => {
            if u.value.as_str().is_empty() || t.value.as_str().is_empty() {
                Option::None
            } else {
                Option::Some((u.value, t.value))
            }
        },
        _ => Option::None,
    }
}

/// The server's base URL without its trailing slashes.
fn normalized_base(base: &str) -> (r: String)
    ensures
        r@ == strip_back(base@, '/'),
{
    from_chars(&strip_char_back(&to_chars(base), '/'))
}

/// The endpoint that serves a workspace's snapshot for push and pull.
pub fn sync_workspace_url(base: &str, workspace_id: &str) -> (r: String)
    ensures
        r@ == strip_back(base@, '/') + "/sync/workspaces/"@ + workspace_id@,
{
    let mut out = normalized_base(base);
    out.append("/sync/workspaces/");
    out.append(workspace_id);
    out
}

/// The endpoint that invites a member to a workspace.
pub fn invite_url(base: &str, workspace_id: &str) -> (r: String)
    ensures
        r@ == strip_back(base@, '/') + "/workspaces/"@ + workspace_id@ + "/invite"@,
{
    let mut out = normalized_base(base);
    out.append("/workspaces/");
    out.append(workspace_id);
    out.append("/invite");
    out
}

} // verus!
