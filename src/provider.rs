use vstd::prelude::*;

use crate::clock::{utc_now, Timestamp};
use crate::config::{
    sso_config_from_profile, spec_sso_config_from_profile, ProfileLookup, SSOConfig,
};
use crate::error::CredentialsError;
use crate::exchange::{
    exchange_request, spec_exchange_request, ExchangeRequest, ResolvedCredentials,
};
use crate::token_cache::{accept_cached_token, spec_accept_cached_token, CachedSSOToken};

verus! {

/// What happened since the provider last asked for work.
pub enum Event {
    /// A credential request starts.
    Begin,
    /// The profile was read; `None` when the profile set could not be loaded.
    ProfileLoaded(Option<ProfileLookup>),
    /// The token cache file was read and parsed; `None` when it is missing
    /// or unreadable.
    TokenLoaded(Option<CachedSSOToken>),
}

/// What the provider asks its caller to do next.
pub enum Action {
    /// Read the active profile and report `Event::ProfileLoaded`.
    LoadProfile,
    /// Read the token cache file for this start URL and report
    /// `Event::TokenLoaded`.
    LoadToken(String),
    /// Call the role-credential service; `credentials_from_response` turns
    /// its answer into the outcome of the request.
    Exchange(ExchangeRequest),
    /// The request is over, with this outcome.
    Finish(Result<ResolvedCredentials, CredentialsError>),
}

/// The state one provider keeps across credential requests: the settings,
/// loaded once, and the last usable session token.
pub struct SSOProviderState {
    pub sso_config: Option<SSOConfig>,
    pub cached_token: Option<CachedSSOToken>,
}

/// Once the settings are known: drop a held token that has expired at `now`,
/// then ask for the token file if no token is held, else exchange the token.
pub open spec fn spec_after_config(s: SSOProviderState, now: Timestamp) -> (SSOProviderState, Action)
    recommends
        s.sso_config is Some,
{
    let config = s.sso_config->0;
    let token = match s.cached_token {
        Some(t) => if now.spec_is_before(t.expires_at) {
            Some(t)
        } else {
            None
        },
        None => None,
    };
    let next = SSOProviderState { sso_config: s.sso_config, cached_token: token };
    match token {
        Some(t) => (next, Action::Exchange(spec_exchange_request(config, t.access_token))),
        None => (next, Action::LoadToken(config.sso_start_url)),
    }
}

/// One step of a credential request: the next state and action after
/// `event`, with `now` the current time.
pub open spec fn spec_step(s: SSOProviderState, event: Event, now: Timestamp) -> (SSOProviderState, Action) {
    match event {
        Event::Begin => if s.sso_config is None {
            (s, Action::LoadProfile)
        } else {
            spec_after_config(s, now)
        },
        Event::ProfileLoaded(profile) => if s.sso_config is Some {
            spec_after_config(s, now)
        } else {
            match spec_sso_config_from_profile(profile) {
                Ok(config) => spec_after_config(
                    SSOProviderState { sso_config: Some(config), cached_token: s.cached_token },
                    now,
                ),
                Err(e) => (s, Action::Finish(Err(e))),
            }
        },
        Event::TokenLoaded(token) => if s.sso_config is None {
            (s, Action::LoadProfile)
        } else {
            let kept = spec_accept_cached_token(token, now);
            let next = SSOProviderState { sso_config: s.sso_config, cached_token: kept };
            match kept {
                Some(t) => (
                    next,
                    Action::Exchange(spec_exchange_request(s.sso_config->0, t.access_token)),
                ),
                None => (next, Action::Finish(Err(CredentialsError::CredentialsNotLoaded))),
            }
        },
    }
}

impl Default for SSOProviderState {
    /// A provider that has loaded nothing yet.
    fn default() -> (r: SSOProviderState)
        ensures
            r.sso_config is None,
            r.cached_token is None,
    {
        SSOProviderState::new()
    }
}

impl SSOProviderState {
    /// A held token has a non-empty access token.
    pub open spec fn wf(&self) -> bool {
        self.cached_token matches Some(t) ==> t.access_token@.len() > 0
    }

    /// A provider that has loaded nothing yet.
    pub fn new() -> (r: SSOProviderState)
        ensures
            r.sso_config is None,
            r.cached_token is None,
            r.wf(),
    {
        SSOProviderState { sso_config: None, cached_token: None }
    }

    fn after_config(&mut self, now: Timestamp) -> (a: Action)
        requires
            old(self).sso_config is Some,
        ensures
            (*final(self), a) == spec_after_config(*old(self), now),
    {
        let expired = match &self.cached_token {
            Some(t) => t.is_expired_at(&now),
            None => false,
        };
        if expired {
            self.cached_token = None;
        }
        let config = match &self.sso_config {
            Some(c) => c,
            None => { return Action::LoadProfile; },
        };
        match &self.cached_token {
            Some(t) => Action::Exchange(exchange_request(config, &t.access_token)),
            None => Action::LoadToken(config.sso_start_url.clone()),
        }
    }

    /// Moves the request on after `event`, with `now` the current time.
    pub fn advance(&mut self, event: Event, now: Timestamp) -> (a: Action)
        requires
            old(self).wf(),
        ensures
            final(self).wf(),
            (*final(self), a) == spec_step(*old(self), event, now),
    {
        match event {
            Event::Begin => {
                if self.sso_config.is_none() {
                    Action::LoadProfile
                } else {
                    self.after_config(now)
                }
            },
            Event::ProfileLoaded(profile) => {
                if self.sso_config.is_some() {
                    self.after_config(now)
                } else {
                    match sso_config_from_profile(profile) {
                        Ok(config) => {
                            self.sso_config = Some(config);
                            self.after_config(now)
                        },
                        Err(e) => Action::Finish(Err(e)),
                    }
                }
            },
            Event::TokenLoaded(token) => {
                let kept = accept_cached_token(token, now);
                let config = match &self.sso_config {
                    Some(c) => c,
                    None => { return Action::LoadProfile; },
                };
                let a = match &kept {
                    Some(t) => Action::Exchange(exchange_request(config, &t.access_token)),
                    None => Action::Finish(Err(CredentialsError::CredentialsNotLoaded)),
                };
                self.cached_token = kept;
                a
            },
        }
    }

    /// Moves the request on after `event`, reading the clock for the
    /// current time.
    pub fn handle(&mut self, event: Event) -> (a: Action)
        requires
            old(self).wf(),
        ensures
            final(self).wf(),
            exists|now: Timestamp| (*final(self), a) == #[trigger] spec_step(*old(self), event, now),
    {
        let ghost start = *self;
        let ghost ev = event;
        let now = utc_now();
        let a = self.advance(event, now);
        assert((*self, a) == spec_step(start, ev, now));
        a
    }
}

} // verus!
