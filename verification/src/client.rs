//! The bot's configuration and the plain part of a connection.

use vstd::prelude::*;

use crate::json::optional_text;

verus! {

/// The account that a connection trades on.
#[derive(Debug, Clone, Copy, PartialEq, Eq, Structural)]
pub enum Mode {
    Demo,
    Real,
}

/// The bot's configuration.
#[derive(Debug, Clone)]
pub struct AppCfg {
    pub demo_app_id: String,
    pub real_app_id: String,
    pub real_api_token: String,
    pub demo_api_token: String,
    pub currency: String,
}

/// A setting that has no default.
#[derive(Debug, Clone, Copy, PartialEq, Eq, Structural)]
pub enum Setting {
    DemoAppId,
    RealAppId,
    DemoDerivApi,
    RealDerivApi,
}

impl Setting {
    /// The environment variable that holds the setting.
    pub open spec fn variable(self) -> Seq<char> {
        match self {
            Setting::DemoAppId => "DEMO_APP_ID"@,
            Setting::RealAppId => "REAL_APP_ID"@,
            Setting::DemoDerivApi => "DEMO_DERIV_API"@,
            Setting::RealDerivApi => "REAL_DERIV_API"@,
        }
    }

    /// The environment variable that holds the setting.
    pub fn name(self) -> (r: &'static str)
        ensures
            r@ == self.variable(),
    {
        match self {
            Setting::DemoAppId => "DEMO_APP_ID",
            Setting::RealAppId => "REAL_APP_ID",
            Setting::DemoDerivApi => "DEMO_DERIV_API",
            Setting::RealDerivApi => "REAL_DERIV_API",
        }
    }

    /// What to report when the setting is missing.
    pub open spec fn spec_missing_message(self) -> Seq<char> {
        self.variable() + " missing in .env"@
    }

    /// What to report when the setting is missing.
    pub fn missing_message(self) -> (r: String)
        ensures
            r@ == self.spec_missing_message(),
            r@ == self.variable() + " missing in .env"@,
    {
        self.name().to_owned().concat(" missing in .env")
    }
}

/// The variables as they were found in the environment.
#[derive(Debug)]
pub struct Variables {
    pub demo_app_id: Option<String>,
    pub real_app_id: Option<String>,
    pub demo_deriv_api: Option<String>,
    pub real_deriv_api: Option<String>,
    pub currency: Option<String>,
}

impl Variables {
    /// The first setting, in the order in which they are looked up, that has
    /// no value.
    pub open spec fn first_missing(self) -> Option<Setting> {
        if self.demo_app_id is None {
            Some(Setting::DemoAppId)
        } else if self.real_app_id is None {
            Some(Setting::RealAppId)
        } else if self.demo_deriv_api is None {
            Some(Setting::DemoDerivApi)
        } else if self.real_deriv_api is None {
            Some(Setting::RealDerivApi)
        } else {
            None
        }
    }
}

/// The application id and the token with which a connection is opened.
pub struct Credentials<'a> {
    pub app_id: &'a str,
    pub token: &'a str,
}

impl AppCfg {
    /// The configuration holds the variables as they were found, with US
    /// dollars where no currency is named.
    pub open spec fn is_read_from(self, vars: Variables) -> bool {
        &&& Some(self.demo_app_id) == vars.demo_app_id
        &&& Some(self.real_app_id) == vars.real_app_id
        &&& Some(self.demo_api_token) == vars.demo_deriv_api
        &&& Some(self.real_api_token) == vars.real_deriv_api
        &&& self.currency@ == match optional_text(vars.currency) {
            Some(currency) => currency,
            None => "USD"@,
        }
    }

    /// The application id and the token of an account.
    pub open spec fn spec_credentials(self, mode: Mode) -> (Seq<char>, Seq<char>) {
        match mode {
            Mode::Demo => (self.demo_app_id@, self.demo_api_token@),
            Mode::Real => (self.real_app_id@, self.real_api_token@),
        }
    }

    /// The configuration that the environment gives: every setting must be
    /// there, and the currency is US dollars unless another one is named.
    pub fn from_variables(vars: Variables) -> (r: Result<AppCfg, Setting>)
        ensures
            match r {
                Ok(cfg) => {
                    &&& vars.first_missing() is None
                    &&& cfg.is_read_from(vars)
                    &&& Some(cfg.demo_app_id) == vars.demo_app_id
                    &&& Some(cfg.real_app_id) == vars.real_app_id
                    &&& Some(cfg.demo_api_token) == vars.demo_deriv_api
                    &&& Some(cfg.real_api_token) == vars.real_deriv_api
                    &&& cfg.currency@ == match optional_text(vars.currency) {
                        Some(currency) => currency,
                        None => "USD"@,
                    }
                },
                Err(setting) => vars.first_missing() == Some(setting),
            },
    {
        let demo_app_id = match vars.demo_app_id {
            Some(value) => value,
            None => return Err(Setting::DemoAppId),
        };
        let real_app_id = match vars.real_app_id {
            Some(value) => value,
            None => return Err(Setting::RealAppId),
        };
        let demo_api_token = match vars.demo_deriv_api {
            Some(value) => value,
            None => return Err(Setting::DemoDerivApi),
        };
        let real_api_token = match vars.real_deriv_api {
            Some(value) => value,
            None => return Err(Setting::RealDerivApi),
        };
        let currency = match vars.currency {
            Some(value) => value,
            None => "USD".to_owned(),
        };
        Ok(AppCfg { demo_app_id, real_app_id, real_api_token, demo_api_token, currency })
    }

    /// The credentials of an account.
    pub fn credentials(&self, mode: Mode) -> (r: Credentials<'_>)
        ensures
            (r.app_id@, r.token@) == self.spec_credentials(mode),
            match mode {
                Mode::Demo => r.app_id@ == self.demo_app_id@ && r.token@ == self.demo_api_token@,
                Mode::Real => r.app_id@ == self.real_app_id@ && r.token@ == self.real_api_token@,
            },
    {
        match mode {
            Mode::Demo => Credentials {
                app_id: self.demo_app_id.as_str(),
                token: self.demo_api_token.as_str(),
            },
            Mode::Real => Credentials {
                app_id: self.real_app_id.as_str(),
                token: self.real_api_token.as_str(),
            },
        }
    }
}

/// The state of an authorized connection, its socket aside.
#[derive(Debug, Clone, Copy, PartialEq, Eq, Structural)]
pub struct WsClient {
    /// The id of the latest request; zero before the first.
    pub req_id: u64,
    pub current_mode: Mode,
}

impl WsClient {
    /// A client on a connection over which nothing was requested yet.
    pub open spec fn spec_new(mode: Mode) -> WsClient {
        WsClient { req_id: 0, current_mode: mode }
    }

    /// The client after another request.
    pub open spec fn spec_next(self) -> WsClient {
        WsClient { req_id: (self.req_id + 1) as u64, ..self }
    }

    /// A client on a connection over which nothing was requested yet.
    pub fn new(mode: Mode) -> (r: WsClient)
        ensures
            r == (WsClient { req_id: 0, current_mode: mode }),
            r == WsClient::spec_new(mode),
    {
        WsClient { req_id: 0, current_mode: mode }
    }

    /// Takes the next request id.
    pub fn next_req_id(&mut self) -> (r: u64)
        requires
            old(self).req_id < u64::MAX,
        ensures
            r == old(self).req_id + 1,
            *final(self) == (WsClient { req_id: r, ..*old(self) }),
            *final(self) == old(self).spec_next(),
    {
        self.req_id += 1;
        self.req_id
    }
}

/// The setting that is reported missing is missing, every setting looked up
/// before it is there, and none is reported only if all are there.
pub proof fn law_first_missing(vars: Variables)
    ensures
        match vars.first_missing() {
            Some(Setting::DemoAppId) => vars.demo_app_id is None,
            Some(Setting::RealAppId) => vars.real_app_id is None && vars.demo_app_id is Some,
            Some(Setting::DemoDerivApi) => vars.demo_deriv_api is None && vars.demo_app_id is Some
                && vars.real_app_id is Some,
            Some(Setting::RealDerivApi) => vars.real_deriv_api is None && vars.demo_app_id is Some
                && vars.real_app_id is Some && vars.demo_deriv_api is Some,
            None => vars.demo_app_id is Some && vars.real_app_id is Some
                && vars.demo_deriv_api is Some && vars.real_deriv_api is Some,
        },
{
}

/// The variables that hold the settings.
pub proof fn law_variable_names()
    ensures
        Setting::DemoAppId.variable() == "DEMO_APP_ID"@,
        Setting::RealAppId.variable() == "REAL_APP_ID"@,
        Setting::DemoDerivApi.variable() == "DEMO_DERIV_API"@,
        Setting::RealDerivApi.variable() == "REAL_DERIV_API"@,
{
}

/// What was read from the environment is what the configuration holds; the
/// currency is US dollars only where none was read.
pub proof fn law_configuration_is_what_was_read(cfg: AppCfg, vars: Variables)
    requires
        cfg.is_read_from(vars),
    ensures
        vars.demo_app_id == Some(cfg.demo_app_id),
        vars.real_app_id == Some(cfg.real_app_id),
        vars.demo_deriv_api == Some(cfg.demo_api_token),
        vars.real_deriv_api == Some(cfg.real_api_token),
        vars.currency is Some ==> cfg.currency@ == vars.currency->0@,
        vars.currency is None ==> cfg.currency@ == "USD"@,
{
}

/// A connection to an account is opened with the id and the token of that
/// account, and with nothing of the other.
pub proof fn law_credentials_are_of_account(cfg: AppCfg, other: AppCfg)
    ensures
        cfg.spec_credentials(Mode::Demo) == (cfg.demo_app_id@, cfg.demo_api_token@),
        cfg.spec_credentials(Mode::Real) == (cfg.real_app_id@, cfg.real_api_token@),
        cfg.demo_app_id@ == other.demo_app_id@ && cfg.demo_api_token@ == other.demo_api_token@
            ==> cfg.spec_credentials(Mode::Demo) == other.spec_credentials(Mode::Demo),
        cfg.real_app_id@ == other.real_app_id@ && cfg.real_api_token@ == other.real_api_token@
            ==> cfg.spec_credentials(Mode::Real) == other.spec_credentials(Mode::Real),
{
}

/// The ids of the requests over a connection are counted up from one: the
/// `n`-th request has the id `n`.
pub proof fn law_requests_are_numbered(clients: Seq<WsClient>, mode: Mode, n: int)
    requires
        clients.len() > 0,
        clients[0] == WsClient::spec_new(mode),
        forall|i: int|
            0 <= i < clients.len() - 1 ==> #[trigger] clients[i].req_id < u64::MAX && clients[i
                + 1] == clients[i].spec_next(),
        0 <= n < clients.len(),
    ensures
        clients[n].req_id == n,
        clients[n].current_mode == mode,
    decreases n,
{
    if n > 0 {
        law_requests_are_numbered(clients, mode, n - 1);
        assert(clients[n - 1].req_id < u64::MAX);
        assert(clients[(n - 1) + 1] == clients[n - 1].spec_next());
    }
}

/// What is reported of a missing setting names its variable first.
pub proof fn law_missing_setting_is_named(setting: Setting)
    ensures
        setting.spec_missing_message().take(setting.variable().len() as int) == setting.variable(),
        setting.spec_missing_message().skip(setting.variable().len() as int)
            == " missing in .env"@,
{
}

} // verus!
