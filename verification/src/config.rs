//! The configuration of the proxy, its defaults and the rule that decides
//! whether a configuration may be served.

use crate::error::{clone_result, result_view, Error, ErrorView, OUT_OF_STEP};
use vstd::prelude::*;

verus! {

/// The name of the sidecar file, which lies beside the executable.
pub const CONFIG_FILE_NAME: &'static str = "config.toml";

/// User name and password that a client has to present.
#[derive(Debug, PartialEq, Eq)]
pub struct PasswordAuth {
    pub username: String,
    pub password: String,
}

/// [`PasswordAuth`] as the contracts see it.
pub struct PasswordAuthView {
    pub username: Seq<char>,
    pub password: Seq<char>,
}

impl View for PasswordAuth {
    type V = PasswordAuthView;

    open spec fn view(&self) -> PasswordAuthView {
        PasswordAuthView { username: self.username@, password: self.password@ }
    }
}

impl Clone for PasswordAuth {
    fn clone(&self) -> (copy: PasswordAuth)
        ensures
            copy@ == self@,
    {
        PasswordAuth { username: self.username.clone(), password: self.password.clone() }
    }
}

/// An IP address by its bits, most significant octet first.
#[derive(Clone, Copy, Debug, PartialEq, Eq, Structural)]
pub enum IpAddress {
    V4(u32),
    V6(u128),
}

/// Why a configuration may not be served.
#[derive(Clone, Copy, Debug, PartialEq, Eq, Structural)]
pub enum ConfigError {
    /// UDP is allowed, but no public address is set to answer with.
    UdpWithoutPublicAddr,
    /// Authentication is skipped, yet credentials are set.
    SkipAuthWithCredentials,
}

/// What the proxy is told to do.
#[derive(Debug, PartialEq, Eq)]
pub struct Config {
    /// The address to listen on, such as `127.0.0.1:1080`.
    pub listen_addr: String,
    /// Our external address, sent in replies to UDP requests.
    pub public_addr: Option<IpAddress>,
    /// Seconds a request may take.
    pub request_timeout: u64,
    /// The credentials clients have to present, if any.
    pub auth: Option<PasswordAuth>,
    /// Leave out the authentication exchange altogether.
    pub skip_auth: bool,
    /// Serve UDP requests.
    pub allow_udp: bool,
    /// Resolve the names of targets before a request is executed.
    pub dns_resolve: bool,
    /// Execute the requests that clients make.
    pub execute_command: bool,
}

/// [`Config`] as the contracts see it.
pub struct ConfigView {
    pub listen_addr: Seq<char>,
    pub public_addr: Option<IpAddress>,
    pub request_timeout: u64,
    pub auth: Option<PasswordAuthView>,
    pub skip_auth: bool,
    pub allow_udp: bool,
    pub dns_resolve: bool,
    pub execute_command: bool,
}

impl View for Config {
    type V = ConfigView;

    open spec fn view(&self) -> ConfigView {
        ConfigView {
            listen_addr: self.listen_addr@,
            public_addr: self.public_addr,
            request_timeout: self.request_timeout,
            auth: match self.auth {
                Some(auth) => Some(auth@),
                None => None,
            },
            skip_auth: self.skip_auth,
            allow_udp: self.allow_udp,
            dns_resolve: self.dns_resolve,
            execute_command: self.execute_command,
        }
    }
}

impl Clone for Config {
    fn clone(&self) -> (copy: Config)
        ensures
            copy@ == self@,
    {
        Config {
            listen_addr: self.listen_addr.clone(),
            public_addr: self.public_addr,
            request_timeout: self.request_timeout,
            auth: match &self.auth {
                Some(auth) => Some(auth.clone()),
                None => None,
            },
            skip_auth: self.skip_auth,
            allow_udp: self.allow_udp,
            dns_resolve: self.dns_resolve,
            execute_command: self.execute_command,
        }
    }
}

impl ConfigView {
    /// The configuration that is used when none is given.
    pub open spec fn initial() -> ConfigView {
        ConfigView {
            listen_addr: "127.0.0.1:1080"@,
            public_addr: None,
            request_timeout: 60,
            auth: None,
            skip_auth: false,
            allow_udp: false,
            dns_resolve: true,
            execute_command: true,
        }
    }

    /// The first rule that the configuration breaks, if it breaks one.
    pub open spec fn violation(self) -> Option<ConfigError> {
        if self.allow_udp && self.public_addr is None {
            Some(ConfigError::UdpWithoutPublicAddr)
        } else if self.skip_auth && self.auth is Some {
            Some(ConfigError::SkipAuthWithCredentials)
        } else {
            None
        }
    }

    /// UDP needs a public address, and skipping authentication excludes credentials.
    pub open spec fn valid(self) -> bool {
        &&& self.allow_udp ==> self.public_addr is Some
        &&& self.skip_auth ==> self.auth is None
    }
}

/// Seconds a request may take when the configuration names no timeout.
pub fn default_timeout() -> (secs: u64)
    ensures
        secs == 60,
{
    60
}

/// The address to listen on when the configuration names none.
pub fn default_listen_addr() -> (addr: String)
    ensures
        addr@ == "127.0.0.1:1080"@,
{
    "127.0.0.1:1080".to_owned()
}

impl Default for Config {
    fn default() -> (cfg: Config)
        ensures
            cfg@ == ConfigView::initial(),
    {
        Config {
            listen_addr: default_listen_addr(),
            public_addr: None,
            request_timeout: default_timeout(),
            auth: None,
            skip_auth: false,
            allow_udp: false,
            dns_resolve: true,
            execute_command: true,
        }
    }
}

impl ConfigError {
    /// The complaint in words.
    pub fn message(&self) -> (text: String)
        ensures
            text@ == match *self {
                ConfigError::UdpWithoutPublicAddr => "Can't allow UDP if public-addr is not set"@,
                ConfigError::SkipAuthWithCredentials =>
                    "Can't use skip-auth flag and authentication altogether."@,
            },
    {
        match self {
            ConfigError::UdpWithoutPublicAddr => {
                "Can't allow UDP if public-addr is not set".to_owned()
            },
            ConfigError::SkipAuthWithCredentials => {
                "Can't use skip-auth flag and authentication altogether.".to_owned()
            },
        }
    }
}

impl Config {
    /// Accepts the configuration, or names the first rule that it breaks. UDP
    /// without a public address is looked for first.
    pub fn validate(&self) -> (res: Result<(), ConfigError>)
        ensures
            res == match self@.violation() {
                Some(e) => Err::<(), ConfigError>(e),
                None => Ok(()),
            },
            res is Ok <==> self@.valid(),
    {
        if self.allow_udp && self.public_addr.is_none() {
            return Err(ConfigError::UdpWithoutPublicAddr);
        }
        if self.skip_auth && self.auth.is_some() {
            return Err(ConfigError::SkipAuthWithCredentials);
        }
        Ok(())
    }
}

/// A configuration is valid exactly when it breaks no rule.
pub proof fn valid_iff_no_violation(cfg: ConfigView)
    ensures
        cfg.valid() <==> cfg.violation() is None,
{
}

/// Allowing UDP without a public address is refused, whatever else is set.
pub proof fn udp_without_public_addr_is_refused(cfg: ConfigView)
    requires
        cfg.allow_udp,
        cfg.public_addr is None,
    ensures
        cfg.violation() == Some(ConfigError::UdpWithoutPublicAddr),
        !cfg.valid(),
{
}

/// Skipping authentication while credentials are set is refused.
pub proof fn skip_auth_with_credentials_is_refused(cfg: ConfigView)
    requires
        cfg.skip_auth,
        cfg.auth is Some,
    ensures
        cfg.violation() is Some,
        !cfg.valid(),
{
}

/// A configuration whose only fault is UDP without a public address is
/// accepted once UDP is switched off, and once an address is set.
pub proof fn udp_conflict_cleared(cfg: ConfigView, addr: IpAddress)
    requires
        cfg.violation() == Some(ConfigError::UdpWithoutPublicAddr),
        !(cfg.skip_auth && cfg.auth is Some),
    ensures
        (ConfigView { allow_udp: false, ..cfg }).valid(),
        (ConfigView { public_addr: Some(addr), ..cfg }).valid(),
{
}

/// A configuration whose only fault is skipped authentication beside
/// credentials is accepted once the flag is cleared, and once the credentials
/// are taken out.
pub proof fn auth_conflict_cleared(cfg: ConfigView)
    requires
        cfg.violation() == Some(ConfigError::SkipAuthWithCredentials),
    ensures
        (ConfigView { skip_auth: false, ..cfg }).valid(),
        (ConfigView { auth: None, ..cfg }).valid(),
{
}

/// A call that loading asks its driver to make.
#[derive(Debug, PartialEq, Eq)]
pub enum LoadCall {
    /// Find the path of the file of this name beside the executable.
    Locate { file_name: String },
    /// Read the file and take the configuration from it.
    Read { path: String },
    /// Put on record that the defaults are used, and why.
    Warn { cause: String },
    /// Loading is over: this is the configuration.
    Return(Config),
}

/// [`LoadCall`] as the contracts see it.
pub enum LoadCallView {
    Locate { file_name: Seq<char> },
    Read { path: Seq<char> },
    Warn { cause: Seq<char> },
    Return(ConfigView),
}

impl View for LoadCall {
    type V = LoadCallView;

    open spec fn view(&self) -> LoadCallView {
        match *self {
            LoadCall::Locate { file_name } => LoadCallView::Locate { file_name: file_name@ },
            LoadCall::Read { path } => LoadCallView::Read { path: path@ },
            LoadCall::Warn { cause } => LoadCallView::Warn { cause: cause@ },
            LoadCall::Return(cfg) => LoadCallView::Return(cfg@),
        }
    }
}

impl Clone for LoadCall {
    fn clone(&self) -> (copy: LoadCall)
        ensures
            copy@ == self@,
    {
        match self {
            LoadCall::Locate { file_name } => LoadCall::Locate { file_name: file_name.clone() },
            LoadCall::Read { path } => LoadCall::Read { path: path.clone() },
            LoadCall::Warn { cause } => LoadCall::Warn { cause: cause.clone() },
            LoadCall::Return(cfg) => LoadCall::Return(cfg.clone()),
        }
    }
}

/// A call that saving asks its driver to make.
#[derive(Debug, PartialEq, Eq)]
pub enum SaveCall {
    /// Find the path of the file of this name beside the executable.
    Locate { file_name: String },
    /// Write the configuration to the file.
    Write { path: String, config: Config },
    /// Saving is over, with this result.
    Return(Result<(), Error>),
}

/// [`SaveCall`] as the contracts see it.
pub enum SaveCallView {
    Locate { file_name: Seq<char> },
    Write { path: Seq<char>, config: ConfigView },
    Return(Result<(), ErrorView>),
}

impl View for SaveCall {
    type V = SaveCallView;

    open spec fn view(&self) -> SaveCallView {
        match *self {
            SaveCall::Locate { file_name } => SaveCallView::Locate { file_name: file_name@ },
            SaveCall::Write { path, config } => SaveCallView::Write {
                path: path@,
                config: config@,
            },
            SaveCall::Return(result) => SaveCallView::Return(result_view(result)),
        }
    }
}

impl Clone for SaveCall {
    fn clone(&self) -> (copy: SaveCall)
        ensures
            copy@ == self@,
    {
        match self {
            SaveCall::Locate { file_name } => SaveCall::Locate { file_name: file_name.clone() },
            SaveCall::Write { path, config } => SaveCall::Write {
                path: path.clone(),
                config: config.clone(),
            },
            SaveCall::Return(result) => SaveCall::Return(clone_result(result)),
        }
    }
}

/// What came of a call to the store.
#[derive(Debug, PartialEq, Eq)]
pub enum StoreReply {
    /// The call was made, and there is nothing to tell.
    Done,
    /// The path that was asked for.
    Path(String),
    /// The configuration that the file holds.
    Loaded(Config),
    /// The call failed.
    Failed(String),
}

/// [`StoreReply`] as the contracts see it.
pub enum StoreReplyView {
    Done,
    Path(Seq<char>),
    Loaded(ConfigView),
    Failed(Seq<char>),
}

impl View for StoreReply {
    type V = StoreReplyView;

    open spec fn view(&self) -> StoreReplyView {
        match *self {
            StoreReply::Done => StoreReplyView::Done,
            StoreReply::Path(path) => StoreReplyView::Path(path@),
            StoreReply::Loaded(cfg) => StoreReplyView::Loaded(cfg@),
            StoreReply::Failed(cause) => StoreReplyView::Failed(cause@),
        }
    }
}

impl Clone for StoreReply {
    fn clone(&self) -> (copy: StoreReply)
        ensures
            copy@ == self@,
    {
        match self {
            StoreReply::Done => StoreReply::Done,
            StoreReply::Path(path) => StoreReply::Path(path.clone()),
            StoreReply::Loaded(cfg) => StoreReply::Loaded(cfg.clone()),
            StoreReply::Failed(cause) => StoreReply::Failed(cause.clone()),
        }
    }
}

/// The pending call of a load as the contracts see it.
pub open spec fn load_view(pending: Option<LoadCall>) -> Option<LoadCallView> {
    match pending {
        Some(call) => Some(call@),
        None => None,
    }
}

/// The pending call of a save as the contracts see it.
pub open spec fn save_view(pending: Option<SaveCall>) -> Option<SaveCallView> {
    match pending {
        Some(call) => Some(call@),
        None => None,
    }
}

/// The warning that loading gives on an answer that does not let it go on.
pub open spec fn fallback(reply: StoreReplyView) -> LoadCallView {
    match reply {
        StoreReplyView::Failed(cause) => LoadCallView::Warn { cause },
        _ => LoadCallView::Warn { cause: OUT_OF_STEP@ },
    }
}

/// The call that loading makes after `pending` was answered with `reply`:
/// find the sidecar file, read it, and end with what it holds. Whatever goes
/// wrong is put on record, and the defaults take the place of the file.
pub open spec fn get_step(pending: Option<LoadCallView>, reply: StoreReplyView) -> LoadCallView {
    match pending {
        None => LoadCallView::Locate { file_name: CONFIG_FILE_NAME@ },
        Some(LoadCallView::Locate { .. }) => match reply {
            StoreReplyView::Path(path) => LoadCallView::Read { path },
            _ => fallback(reply),
        },
        Some(LoadCallView::Read { .. }) => match reply {
            StoreReplyView::Loaded(cfg) => LoadCallView::Return(cfg),
            _ => fallback(reply),
        },
        Some(LoadCallView::Warn { .. }) => LoadCallView::Return(ConfigView::initial()),
        Some(LoadCallView::Return(cfg)) => LoadCallView::Return(cfg),
    }
}

/// How saving ends on an answer that does not let it go on.
pub open spec fn save_failure(reply: StoreReplyView) -> SaveCallView {
    match reply {
        StoreReplyView::Failed(cause) => SaveCallView::Return(Err(ErrorView::ConfigStore { cause })),
        _ => SaveCallView::Return(Err(ErrorView::OutOfStep)),
    }
}

/// The call that saving `cfg` makes after `pending` was answered with
/// `reply`: find the sidecar file, write `cfg` to it, and end.
pub open spec fn save_step(
    cfg: ConfigView,
    pending: Option<SaveCallView>,
    reply: StoreReplyView,
) -> SaveCallView {
    match pending {
        None => SaveCallView::Locate { file_name: CONFIG_FILE_NAME@ },
        Some(SaveCallView::Locate { .. }) => match reply {
            StoreReplyView::Path(path) => SaveCallView::Write { path, config: cfg },
            _ => save_failure(reply),
        },
        Some(SaveCallView::Write { .. }) => match reply {
            StoreReplyView::Done => SaveCallView::Return(Ok(())),
            _ => save_failure(reply),
        },
        Some(SaveCallView::Return(result)) => SaveCallView::Return(result),
    }
}

/// Warns of an answer that does not let loading go on.
fn fall_back(reply: StoreReply) -> (call: LoadCall)
    ensures
        call@ == fallback(reply@),
{
    match reply {
        StoreReply::Failed(cause) => LoadCall::Warn { cause },
        _ => LoadCall::Warn { cause: OUT_OF_STEP.to_owned() },
    }
}

/// Ends saving on an answer that does not let it go on.
fn fail_to_save(reply: StoreReply) -> (call: SaveCall)
    ensures
        call@ == save_failure(reply@),
{
    match reply {
        StoreReply::Failed(cause) => SaveCall::Return(Err(Error::ConfigStore { cause })),
        _ => SaveCall::Return(Err(Error::OutOfStep)),
    }
}

impl Config {
    /// Loads the configuration from the sidecar file. Loading never fails:
    /// where the file cannot be found, read or understood, that is put on
    /// record and the defaults are used.
    pub fn get(pending: Option<LoadCall>, reply: StoreReply) -> (call: LoadCall)
        ensures
            call@ == get_step(load_view(pending), reply@),
    {
        match pending {
            None => LoadCall::Locate { file_name: CONFIG_FILE_NAME.to_owned() },
            Some(LoadCall::Locate { .. }) => match reply {
                StoreReply::Path(path) => LoadCall::Read { path },
                reply => fall_back(reply),
            },
            Some(LoadCall::Read { .. }) => match reply {
                StoreReply::Loaded(cfg) => LoadCall::Return(cfg),
                reply => fall_back(reply),
            },
            Some(LoadCall::Warn { .. }) => LoadCall::Return(Config::default()),
            Some(LoadCall::Return(cfg)) => LoadCall::Return(cfg),
        }
    }

    /// Saves the configuration to the sidecar file, and ends with the failure
    /// where the file cannot be found or written.
    pub fn save(&self, pending: Option<SaveCall>, reply: StoreReply) -> (call: SaveCall)
        ensures
            call@ == save_step(self@, save_view(pending), reply@),
    {
        match pending {
            None => SaveCall::Locate { file_name: CONFIG_FILE_NAME.to_owned() },
            Some(SaveCall::Locate { .. }) => match reply {
                StoreReply::Path(path) => SaveCall::Write { path, config: self.clone() },
                reply => fail_to_save(reply),
            },
            Some(SaveCall::Write { .. }) => match reply {
                StoreReply::Done => SaveCall::Return(Ok(())),
                reply => fail_to_save(reply),
            },
            Some(SaveCall::Return(result)) => SaveCall::Return(result),
        }
    }
}

/// Loading never fails. A call that fails is answered with a warning that
/// keeps the cause, and a warning is followed by the end of the load, with
/// the defaults.
pub proof fn loading_never_fails(pending: LoadCallView, cause: Seq<char>, reply: StoreReplyView)
    ensures
        pending is Locate || pending is Read ==> get_step(
            Some(pending),
            StoreReplyView::Failed(cause),
        ) == (LoadCallView::Warn { cause }),
        get_step(Some(LoadCallView::Warn { cause }), reply) == LoadCallView::Return(
            ConfigView::initial(),
        ),
{
}

/// What was saved is what is got: saving hands the configuration itself to
/// be written, and loading ends with the configuration that was read.
pub proof fn what_is_saved_is_what_is_got(cfg: ConfigView, path: Seq<char>)
    ensures
        save_step(
            cfg,
            Some(SaveCallView::Locate { file_name: CONFIG_FILE_NAME@ }),
            StoreReplyView::Path(path),
        ) == (SaveCallView::Write { path, config: cfg }),
        get_step(Some(LoadCallView::Read { path }), StoreReplyView::Loaded(cfg))
            == LoadCallView::Return(cfg),
{
}

} // verus!
