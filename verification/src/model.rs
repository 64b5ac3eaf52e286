//! The provider data model: status, protocol, socket security, username
//! pattern, OAuth 2 authorizer, server entries, provider options and the
//! provider record itself.

use vstd::prelude::*;

verus! {

/// Provider status according to manual testing.
#[derive(Debug, Clone, Copy, PartialEq, Eq, Structural)]
pub enum Status {
    /// Provider is known to be working.
    Okay,
    /// Provider works, but requires some preparation,
    /// such as changing the settings in the web interface.
    Preparation,
    /// Provider is known not to work.
    Broken,
}

impl Status {
    /// Numeric wire code of this status.
    pub open spec fn code_spec(self) -> u8 {
        match self {
            Status::Okay => 1,
            Status::Preparation => 2,
            Status::Broken => 3,
        }
    }

    /// Numeric wire code of this status.
    pub fn code(self) -> (r: u8)
        ensures
            r == self.code_spec(),
    {
        match self {
            Status::Okay => 1,
            Status::Preparation => 2,
            Status::Broken => 3,
        }
    }
}

/// Server protocol.
#[derive(Debug, Clone, Copy, PartialEq, Eq, Structural)]
pub enum Protocol {
    /// SMTP protocol.
    Smtp,
    /// IMAP protocol.
    Imap,
}

impl Protocol {
    /// Numeric wire code of this protocol.
    pub open spec fn code_spec(self) -> u8 {
        match self {
            Protocol::Smtp => 1,
            Protocol::Imap => 2,
        }
    }

    /// Numeric wire code of this protocol.
    pub fn code(self) -> (r: u8)
        ensures
            r == self.code_spec(),
    {
        match self {
            Protocol::Smtp => 1,
            Protocol::Imap => 2,
        }
    }
}

/// Socket security of a server connection.
#[derive(Debug, Default, Clone, Copy, PartialEq, Eq, Structural)]
pub enum Socket {
    /// Unspecified socket security, select automatically.
    #[default]
    Automatic,
    /// TLS connection.
    Ssl,
    /// STARTTLS connection.
    Starttls,
    /// No TLS, plaintext connection.
    Plain,
}

impl Socket {
    /// Numeric wire code of this socket security mode.
    pub open spec fn code_spec(self) -> u8 {
        match self {
            Socket::Automatic => 0,
            Socket::Ssl => 1,
            Socket::Starttls => 2,
            Socket::Plain => 3,
        }
    }

    /// Numeric wire code of this socket security mode.
    pub fn code(self) -> (r: u8)
        ensures
            r == self.code_spec(),
    {
        match self {
            Socket::Automatic => 0,
            Socket::Ssl => 1,
            Socket::Starttls => 2,
            Socket::Plain => 3,
        }
    }
}

/// Pattern used to construct login usernames from email addresses.
#[derive(Debug, Clone, Copy, PartialEq, Eq, Structural)]
pub enum UsernamePattern {
    /// Whole email is used as username.
    Email,
    /// Part of address before `@` is used as username.
    Emaillocalpart,
}

impl UsernamePattern {
    /// Numeric wire code of this username pattern.
    pub open spec fn code_spec(self) -> u8 {
        match self {
            UsernamePattern::Email => 1,
            UsernamePattern::Emaillocalpart => 2,
        }
    }

    /// Numeric wire code of this username pattern.
    pub fn code(self) -> (r: u8)
        ensures
            r == self.code_spec(),
    {
        match self {
            UsernamePattern::Email => 1,
            UsernamePattern::Emaillocalpart => 2,
        }
    }
}

/// Type of OAuth 2 authorization.
#[derive(Debug, Clone, Copy, PartialEq, Eq, Structural)]
pub enum Oauth2Authorizer {
    /// Yandex.
    Yandex,
    /// Gmail.
    Gmail,
}

impl Oauth2Authorizer {
    /// Numeric wire code of this authorizer.
    pub open spec fn code_spec(self) -> u8 {
        match self {
            Oauth2Authorizer::Yandex => 1,
            Oauth2Authorizer::Gmail => 2,
        }
    }

    /// Numeric wire code of this authorizer.
    pub fn code(self) -> (r: u8)
        ensures
            r == self.code_spec(),
    {
        match self {
            Oauth2Authorizer::Yandex => 1,
            Oauth2Authorizer::Gmail => 2,
        }
    }
}

/// One server entry of a provider.
#[derive(Debug, Clone)]
pub struct Server {
    /// Server protocol, e.g. SMTP or IMAP.
    pub protocol: Protocol,
    /// Port security, e.g. TLS or STARTTLS.
    pub socket: Socket,
    /// Server host.
    pub hostname: String,
    /// Server port.
    pub port: u16,
    /// Pattern used to construct login usernames from email addresses.
    pub username_pattern: UsernamePattern,
}

/// Mathematical value of a [`Server`].
#[verifier::ext_equal]
pub struct ServerV {
    /// Server protocol.
    pub protocol: Protocol,
    /// Port security.
    pub socket: Socket,
    /// Server host.
    pub hostname: Seq<char>,
    /// Server port.
    pub port: u16,
    /// Username construction pattern.
    pub username_pattern: UsernamePattern,
}

impl View for Server {
    type V = ServerV;

    open spec fn view(&self) -> ServerV {
        ServerV {
            protocol: self.protocol,
            socket: self.socket,
            hostname: self.hostname@,
            port: self.port,
            username_pattern: self.username_pattern,
        }
    }
}

impl DeepView for Server {
    type V = ServerV;

    open spec fn deep_view(&self) -> ServerV {
        self.view()
    }
}

/// Options of a provider, with good defaults.
#[derive(Debug, Clone, Copy, PartialEq, Eq, Structural)]
pub struct ProviderOptions {
    /// True if provider is known to use proper,
    /// not self-signed certificates.
    pub strict_tls: bool,
    /// Maximum number of recipients the provider allows
    /// to send a single email to.
    pub max_smtp_rcpt_to: Option<u16>,
    /// Move messages to the Trash folder instead of marking them deleted.
    pub delete_to_trash: bool,
}

impl ProviderOptions {
    /// The default options: strict TLS, no recipient bound,
    /// flag-delete rather than move to Trash.
    pub fn new() -> (r: Self)
        ensures
            r.strict_tls,
            r.max_smtp_rcpt_to is None,
            !r.delete_to_trash,
    {
        Self { strict_tls: true, max_smtp_rcpt_to: None, delete_to_trash: false }
    }
}

/// A default configuration value set when a provider is configured.
#[derive(Debug, Clone)]
pub struct ConfigDefault {
    /// Configuration variable name.
    pub key: crate::config::Config,
    /// Configuration variable value.
    pub value: String,
}

/// Mathematical value of a [`ConfigDefault`].
#[verifier::ext_equal]
pub struct ConfigDefaultV {
    /// Configuration variable name.
    pub key: crate::config::Config,
    /// Configuration variable value.
    pub value: Seq<char>,
}

impl View for ConfigDefault {
    type V = ConfigDefaultV;

    open spec fn view(&self) -> ConfigDefaultV {
        ConfigDefaultV { key: self.key, value: self.value@ }
    }
}

impl DeepView for ConfigDefault {
    type V = ConfigDefaultV;

    open spec fn deep_view(&self) -> ConfigDefaultV {
        self.view()
    }
}

/// A provider record: identity, status, user-facing hints, server list,
/// optional configuration defaults, optional OAuth 2 authorizer and options.
/// Immutable after construction.
#[derive(Debug, Clone)]
pub struct Provider {
    /// Unique ID, corresponding to the provider database filename.
    pub id: String,
    /// Provider status according to manual testing.
    pub status: Status,
    /// Hint to be shown to the user on the login screen.
    pub before_login_hint: String,
    /// Hint to be added to the device chat after provider configuration.
    pub after_login_hint: String,
    /// URL of the page with the provider overview.
    pub overview_page: String,
    /// List of provider servers.
    pub server: Vec<Server>,
    /// Default configuration values to set when the provider is configured.
    pub config_defaults: Option<Vec<ConfigDefault>>,
    /// Type of OAuth 2 authorization if the provider supports it.
    pub oauth2_authorizer: Option<Oauth2Authorizer>,
    /// Options with good defaults.
    pub opt: ProviderOptions,
}

/// Mathematical value of a [`Provider`].
#[verifier::ext_equal]
pub struct ProviderV {
    /// Unique ID.
    pub id: Seq<char>,
    /// Provider status.
    pub status: Status,
    /// Hint shown before login.
    pub before_login_hint: Seq<char>,
    /// Hint shown after login.
    pub after_login_hint: Seq<char>,
    /// Overview page URL.
    pub overview_page: Seq<char>,
    /// The ordered server list.
    pub server: Seq<ServerV>,
    /// Optional configuration defaults.
    pub config_defaults: Option<Seq<ConfigDefaultV>>,
    /// Optional OAuth 2 authorizer.
    pub oauth2_authorizer: Option<Oauth2Authorizer>,
    /// Provider options.
    pub opt: ProviderOptions,
}

impl View for Provider {
    type V = ProviderV;

    open spec fn view(&self) -> ProviderV {
        ProviderV {
            id: self.id@,
            status: self.status,
            before_login_hint: self.before_login_hint@,
            after_login_hint: self.after_login_hint@,
            overview_page: self.overview_page@,
            server: self.server.deep_view(),
            config_defaults: match self.config_defaults {
                Some(ref v) => Some(v.deep_view()),
                None => None,
            },
            oauth2_authorizer: self.oauth2_authorizer,
            opt: self.opt,
        }
    }
}

impl DeepView for Provider {
    type V = ProviderV;

    open spec fn deep_view(&self) -> ProviderV {
        self.view()
    }
}

} // verus!
