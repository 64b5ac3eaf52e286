//! The closed set of recognized client configuration keys. Each key
//! optionally carries a documented default value, used by a consuming
//! client when the user never configures the key explicitly.

use vstd::prelude::*;

verus! {

/// A recognized client configuration key.
#[derive(Debug, Clone, Copy, PartialEq, Eq, Structural)]
pub enum Config {
    /// Email address, used in the `From:` field.
    Addr,
    /// IMAP server hostname.
    MailServer,
    /// IMAP server username.
    MailUser,
    /// IMAP server password.
    MailPw,
    /// IMAP server port.
    MailPort,
    /// IMAP server security (e.g. TLS, STARTTLS).
    MailSecurity,
    /// How to check IMAP server TLS certificates.
    ImapCertificateChecks,
    /// SMTP server hostname.
    SendServer,
    /// SMTP server username.
    SendUser,
    /// SMTP server password.
    SendPw,
    /// SMTP server port.
    SendPort,
    /// SMTP server security (e.g. TLS, STARTTLS).
    SendSecurity,
    /// How to check SMTP server TLS certificates.
    SmtpCertificateChecks,
    /// Whether to use OAuth 2.
    ServerFlags,
    /// True if SOCKS5 is enabled.
    Socks5Enabled,
    /// SOCKS5 proxy server hostname or address.
    Socks5Host,
    /// SOCKS5 proxy server port.
    Socks5Port,
    /// SOCKS5 proxy server username.
    Socks5User,
    /// SOCKS5 proxy server password.
    Socks5Password,
    /// Own name to use in the `From:` field when sending messages.
    Displayname,
    /// Own status to display, sent in message footer.
    Selfstatus,
    /// Own avatar filename.
    Selfavatar,
    /// Send BCC copy to self; should be enabled for multidevice setups.
    BccSelf,
    /// True if encryption is preferred according to the Autocrypt standard.
    E2eeEnabled,
    /// True if Message Delivery Notifications (read receipts) should
    /// be sent and requested.
    MdnsEnabled,
    /// True if the "Sent" folder should be watched for changes.
    SentboxWatch,
    /// True if chat messages should be moved to a separate folder.
    MvboxMove,
    /// Watch for new messages in the "Mvbox" folder only.
    OnlyFetchMvbox,
    /// Whether to show classic emails or only chat messages.
    ShowEmails,
    /// Quality of the media files to send.
    MediaQuality,
    /// If set to "1", the newest existing messages are fetched after
    /// configuration.
    FetchExistingMsgs,
    /// If set to "1", existing messages are considered already fetched.
    FetchedExistingMsgs,
    /// Type of the OpenPGP key to generate.
    KeyGenType,
    /// Timer in seconds after which a message is deleted from the server.
    DeleteServerAfter,
    /// Timer in seconds after which a message is deleted from the device.
    DeleteDeviceAfter,
    /// Move messages to the Trash folder instead of marking them deleted.
    DeleteToTrash,
    /// Save raw MIME messages with headers in the database if true.
    SaveMimeHeaders,
    /// The primary email address.
    ConfiguredAddr,
    /// Configured IMAP server hostname.
    ConfiguredMailServer,
    /// Configured IMAP server username.
    ConfiguredMailUser,
    /// Configured IMAP server password.
    ConfiguredMailPw,
    /// Configured IMAP server port.
    ConfiguredMailPort,
    /// Configured IMAP server security.
    ConfiguredMailSecurity,
    /// How to check configured IMAP server TLS certificates.
    ConfiguredImapCertificateChecks,
    /// Configured SMTP server hostname.
    ConfiguredSendServer,
    /// Configured SMTP server username.
    ConfiguredSendUser,
    /// Configured SMTP server password.
    ConfiguredSendPw,
    /// Configured SMTP server port.
    ConfiguredSendPort,
    /// How to check configured SMTP server TLS certificates.
    ConfiguredSmtpCertificateChecks,
    /// Whether OAuth 2 is used with the configured provider.
    ConfiguredServerFlags,
    /// Configured SMTP server security.
    ConfiguredSendSecurity,
    /// Configured folder for incoming messages.
    ConfiguredInboxFolder,
    /// Configured folder for chat messages.
    ConfiguredMvboxFolder,
    /// Configured "Sent" folder.
    ConfiguredSentboxFolder,
    /// Configured "Trash" folder.
    ConfiguredTrashFolder,
    /// Unix timestamp of the last successful configuration.
    ConfiguredTimestamp,
    /// ID of the configured provider from the provider database.
    ConfiguredProvider,
    /// True if the account is configured.
    Configured,
    /// All secondary self addresses, separated by spaces.
    SecondaryAddrs,
    /// Read-only core version string.
    SysVersion,
    /// Maximal recommended attachment size in bytes.
    SysMsgsizeMaxRecommended,
    /// Space separated list of all config keys available.
    SysConfigKeys,
    /// True if it is a bot account.
    Bot,
    /// True when to skip initial start messages in groups.
    SkipStartMessages,
    /// Whether to send a warning if the password is wrong.
    NotifyAboutWrongPw,
    /// Percentage of quota at the time a quota warning was given.
    QuotaExceeding,
    /// Address of the WebRTC instance to use for video chats.
    WebrtcInstance,
    /// Timestamp of the last time housekeeping was run.
    LastHousekeeping,
    /// Timestamp of the last notification about undecryptable outgoing
    /// messages.
    LastCantDecryptOutgoingMsgs,
    /// To how many seconds to debounce scanning all folders.
    ScanAllFoldersDebounceSecs,
    /// Whether to avoid using IMAP IDLE even if the server supports it.
    DisableIdle,
    /// Maximal size (in bytes) of messages downloaded automatically.
    DownloadLimit,
    /// Enable sending and executing (applying) sync messages.
    SyncMsgs,
    /// Space-separated list of candidate authserv-ids of the email server.
    AuthservIdCandidates,
    /// Make all outgoing messages with Autocrypt header "multipart/signed".
    SignUnencrypted,
    /// Let the core save all events to the database.
    DebugLogging,
    /// Last message processed by the bot.
    LastMsgId,
    /// How often to gossip Autocrypt keys in multi-recipient chats,
    /// in seconds.
    GossipPeriod,
    /// Feature flag for verified 1:1 chats.
    VerifiedOneOnOneChats,
    /// Row ID of the key used for signatures and encryption to self.
    KeyId,
    /// Key sent to the self-reporting bot to recognize the user.
    SelfReportingId,
}

impl Config {
    /// The documented default value of this key, if it has one.
    pub open spec fn default_value_spec(self) -> Option<Seq<char>> {
        match self {
            Config::BccSelf => Some("1"@),
            Config::E2eeEnabled => Some("1"@),
            Config::MdnsEnabled => Some("1"@),
            Config::SentboxWatch => Some("0"@),
            Config::MvboxMove => Some("1"@),
            Config::OnlyFetchMvbox => Some("0"@),
            Config::ShowEmails => Some("2"@),
            Config::MediaQuality => Some("0"@),
            Config::FetchExistingMsgs => Some("0"@),
            Config::FetchedExistingMsgs => Some("1"@),
            Config::KeyGenType => Some("0"@),
            Config::DeleteServerAfter => Some("0"@),
            Config::DeleteDeviceAfter => Some("0"@),
            Config::SkipStartMessages => Some("0"@),
            Config::NotifyAboutWrongPw => Some("0"@),
            Config::ScanAllFoldersDebounceSecs => Some("60"@),
            Config::DisableIdle => Some("0"@),
            Config::DownloadLimit => Some("0"@),
            Config::SyncMsgs => Some("1"@),
            Config::DebugLogging => Some("0"@),
            Config::GossipPeriod => Some("172800"@),
            Config::VerifiedOneOnOneChats => Some("0"@),
            _ => None,
        }
    }

    /// The documented default value of this key, if it has one.
    pub fn default_value(self) -> (r: Option<&'static str>)
        ensures
            match r {
                Some(s) => self.default_value_spec() == Some(s@),
                None => self.default_value_spec() is None,
            },
    {
        match self {
            Config::BccSelf => Some("1"),
            Config::E2eeEnabled => Some("1"),
            Config::MdnsEnabled => Some("1"),
            Config::SentboxWatch => Some("0"),
            Config::MvboxMove => Some("1"),
            Config::OnlyFetchMvbox => Some("0"),
            Config::ShowEmails => Some("2"),
            Config::MediaQuality => Some("0"),
            Config::FetchExistingMsgs => Some("0"),
            Config::FetchedExistingMsgs => Some("1"),
            Config::KeyGenType => Some("0"),
            Config::DeleteServerAfter => Some("0"),
            Config::DeleteDeviceAfter => Some("0"),
            Config::SkipStartMessages => Some("0"),
            Config::NotifyAboutWrongPw => Some("0"),
            Config::ScanAllFoldersDebounceSecs => Some("60"),
            Config::DisableIdle => Some("0"),
            Config::DownloadLimit => Some("0"),
            Config::SyncMsgs => Some("1"),
            Config::DebugLogging => Some("0"),
            Config::GossipPeriod => Some("172800"),
            Config::VerifiedOneOnOneChats => Some("0"),
            _ => None,
        }
    }
}

} // verus!
