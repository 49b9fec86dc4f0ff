//! API resources: the endpoints the client can address, each with its URL
//! and the scope it requires.

use vstd::prelude::*;
use vstd::string::StringExecFns;

use crate::scope::Scope;

verus! {

/// An addressable endpoint of the remote API.
#[derive(Clone, Debug)]
pub enum Resource {
    /// The authenticated account's identity.
    Me,
    /// The authenticated account's karma breakdown.
    MeKarma,
    /// The authenticated account's preferences.
    MePrefs,
    /// The authenticated account's trophies.
    MeTrophies,
    /// Accounts blocked by the authenticated account.
    PrefsBlocked,
    /// Friends of the authenticated account.
    PrefsFriends,
    /// Accounts the authenticated account allows messages from.
    PrefsMessaging,
    /// Accounts trusted by the authenticated account.
    PrefsTrusted,
    /// Information about a subreddit.
    SubredditAbout(String),
    /// Accounts banned from a subreddit.
    SubredditAboutBanned(String),
    /// Approved submitters of a subreddit.
    SubredditAboutContributors(String),
    /// Moderators of a subreddit.
    SubredditAboutModerators(String),
    /// Accounts muted in a subreddit.
    SubredditAboutMuted(String),
    /// Accounts banned from a subreddit's wiki.
    SubredditAboutWikiBanned(String),
    /// Approved contributors to a subreddit's wiki.
    SubredditAboutWikiContributors(String),
    /// The token endpoint used to obtain a bearer credential.
    AccessToken,
    /// The user-facing authorization page.
    Authorize,
    /// The authorization page laid out for small screens.
    AuthorizeCompact,
}

/// The scope a resource requires, if any.
pub open spec fn spec_resource_scope(r: Resource) -> Option<Scope> {
    match r {
        Resource::Me | Resource::MePrefs | Resource::MeTrophies => Some(Scope::Identity),
        Resource::MeKarma => Some(Scope::MySubreddits),
        Resource::PrefsBlocked
        | Resource::PrefsFriends
        | Resource::PrefsMessaging
        | Resource::PrefsTrusted
        | Resource::SubredditAbout(_)
        | Resource::SubredditAboutBanned(_)
        | Resource::SubredditAboutContributors(_)
        | Resource::SubredditAboutModerators(_)
        | Resource::SubredditAboutMuted(_)
        | Resource::SubredditAboutWikiBanned(_)
        | Resource::SubredditAboutWikiContributors(_) => Some(Scope::Read),
        _ => None,
    }
}

/// The full URL of a resource.
pub open spec fn spec_resource_url(r: Resource) -> Seq<char> {
    match r {
        Resource::Me => "https://oauth.reddit.com"@ + "/api/v1/me"@,
        Resource::MeKarma => "https://oauth.reddit.com"@ + "/api/v1/me/karma"@,
        Resource::MePrefs => "https://oauth.reddit.com"@ + "/api/v1/me/prefs"@,
        Resource::MeTrophies => "https://oauth.reddit.com"@ + "/api/v1/me/trophies"@,
        Resource::PrefsBlocked => "https://oauth.reddit.com"@ + "/prefs/blocked"@,
        Resource::PrefsFriends => "https://oauth.reddit.com"@ + "/prefs/friends"@,
        Resource::PrefsMessaging => "https://oauth.reddit.com"@ + "/prefs/messaging"@,
        Resource::PrefsTrusted => "https://oauth.reddit.com"@ + "/prefs/trusted"@,
        Resource::SubredditAbout(name) => "https://oauth.reddit.com"@ + "/r/"@ + name@
            + "/about"@,
        Resource::SubredditAboutBanned(name) => "https://oauth.reddit.com"@ + "/r/"@ + name@
            + "/about/banned"@,
        Resource::SubredditAboutContributors(name) => "https://oauth.reddit.com"@ + "/r/"@ + name@
            + "/about/contributors"@,
        Resource::SubredditAboutModerators(name) => "https://oauth.reddit.com"@ + "/r/"@ + name@
            + "/about/moderators"@,
        Resource::SubredditAboutMuted(name) => "https://oauth.reddit.com"@ + "/r/"@ + name@
            + "/about/muted"@,
        Resource::SubredditAboutWikiBanned(name) => "https://oauth.reddit.com"@ + "/r/"@ + name@
            + "/about/wikibanned"@,
        Resource::SubredditAboutWikiContributors(name) => "https://oauth.reddit.com"@ + "/r/"@
            + name@ + "/about/wikicontributors"@,
        Resource::AccessToken => "https://www.reddit.com"@ + "/api/v1/access_token"@,
        Resource::Authorize => "https://www.reddit.com"@ + "/api/v1/authorize"@,
        Resource::AuthorizeCompact => "https://www.reddit.com"@ + "/api/v1/authorize.compact"@,
    }
}

impl Resource {
    /// The scope required to address this resource; the token and
    /// authorization endpoints require none.
    pub fn scope(&self) -> (r: Option<Scope>)
        ensures
            r == spec_resource_scope(*self),
    {
        match *self {
            Resource::Me | Resource::MePrefs | Resource::MeTrophies => Some(Scope::Identity),
            Resource::MeKarma => Some(Scope::MySubreddits),
            Resource::PrefsBlocked
            | Resource::PrefsFriends
            | Resource::PrefsMessaging
            | Resource::PrefsTrusted
            | Resource::SubredditAbout(_)
            | Resource::SubredditAboutBanned(_)
            | Resource::SubredditAboutContributors(_)
            | Resource::SubredditAboutModerators(_)
            | Resource::SubredditAboutMuted(_)
            | Resource::SubredditAboutWikiBanned(_)
            | Resource::SubredditAboutWikiContributors(_) => Some(Scope::Read),
            _ => None,
        }
    }

    /// The full URL of this resource.
    pub fn url(&self) -> (r: String)
        ensures
            r@ == spec_resource_url(*self),
    {
        let mut out = String::new();
        match self {
            Resource::AccessToken | Resource::Authorize | Resource::AuthorizeCompact => {
                out.append("https://www.reddit.com");
            },
            _ => {
                out.append("https://oauth.reddit.com");
            },
        }
        match self {
            Resource::Me => {
                out.append("/api/v1/me");
            },
            Resource::MeKarma => {
                out.append("/api/v1/me/karma");
            },
            Resource::MePrefs => {
                out.append("/api/v1/me/prefs");
            },
            Resource::MeTrophies => {
                out.append("/api/v1/me/trophies");
            },
            Resource::PrefsBlocked => {
                out.append("/prefs/blocked");
            },
            Resource::PrefsFriends => {
                out.append("/prefs/friends");
            },
            Resource::PrefsMessaging => {
                out.append("/prefs/messaging");
            },
            Resource::PrefsTrusted => {
                out.append("/prefs/trusted");
            },
            Resource::SubredditAbout(name) => {
                out.append("/r/");
                out.append(name.as_str());
                out.append("/about");
            },
            Resource::SubredditAboutBanned(name) => {
                out.append("/r/");
                out.append(name.as_str());
                out.append("/about/banned");
            },
            Resource::SubredditAboutContributors(name) => {
                out.append("/r/");
                out.append(name.as_str());
                out.append("/about/contributors");
            },
            Resource::SubredditAboutModerators(name) => {
                out.append("/r/");
                out.append(name.as_str());
                out.append("/about/moderators");
            },
            Resource::SubredditAboutMuted(name) => {
                out.append("/r/");
                out.append(name.as_str());
                out.append("/about/muted");
            },
            Resource::SubredditAboutWikiBanned(name) => {
                out.append("/r/");
                out.append(name.as_str());
                out.append("/about/wikibanned");
            },
            Resource::SubredditAboutWikiContributors(name) => {
                out.append("/r/");
                out.append(name.as_str());
                out.append("/about/wikicontributors");
            },
            Resource::AccessToken => {
                out.append("/api/v1/access_token");
            },
            Resource::Authorize => {
                out.append("/api/v1/authorize");
            },
            Resource::AuthorizeCompact => {
                out.append("/api/v1/authorize.compact");
            },
        }
        proof {
            assert(out@ =~= spec_resource_url(*self));
        }
        out
    }
}

} // verus!
