//! The bot's configuration record and how it is read out of loaded settings.
use crate::accounts::{push_zero_padded, zero_padded};
use vstd::prelude::*;
use vstd::string::*;

verus! {

#[verifier::external_type_specification]
#[verifier::external_body]
pub struct ExConfig(::config::Config);

#[verifier::external_type_specification]
#[verifier::external_body]
pub struct ExConfigError(::config::ConfigError);

/// The configuration of the bot.
pub struct ConfigFile {
    /// Token of the bot's Telegram account.
    pub bot_token: String,
    /// Address of the server that hosts the SSH accounts.
    pub server_address: String,
    /// SSH ports of the server; links use the first.
    pub ports: Vec<u32>,
    /// Location shown in link titles.
    pub location: String,
    /// Chat IDs allowed to run commands.
    pub admin_list: Vec<i64>,
    /// Chat ID that receives a copy of each command.
    pub log_chat: i64,
    /// Prefix of automatically created account names.
    pub prefix: String,
}

/// A setting that is absent or does not have the expected type.
pub struct SettingError {
    /// The key of the setting.
    pub key: String,
}

/// Relies on `config::Config::get_string`.
#[verifier::external_body]
fn setting_text(settings: &::config::Config, key: &str) -> (r: Result<String, ::config::ConfigError>) {
    settings.get_string(key)
}

/// Relies on `config::Config::get_int`.
#[verifier::external_body]
fn setting_int(settings: &::config::Config, key: &str) -> (r: Result<i64, ::config::ConfigError>) {
    settings.get_int(key)
}

/// Relies on `config::Config::get` for a list of integers.
#[verifier::external_body]
fn setting_int_list(settings: &::config::Config, key: &str) -> (r: Result<
    Vec<i64>,
    ::config::ConfigError,
>) {
    settings.get::<Vec<i64>>(key)
}

/// Whether every value fits in a `u32`.
pub open spec fn all_u32(values: Seq<i64>) -> bool {
    forall|i: int| 0 <= i < values.len() ==> 0 <= #[trigger] values[i] <= u32::MAX
}

/// The values as port numbers, or `None` where one does not fit in a `u32`.
pub fn ports_from(values: &Vec<i64>) -> (r: Option<Vec<u32>>)
    ensures
        r is Some <==> all_u32(values@),
        r matches Some(ps) ==> ps@.len() == values@.len() && forall|i: int|
            0 <= i < values@.len() ==> #[trigger] ps@[i] as i64 == values@[i],
{
    let mut out: Vec<u32> = Vec::new();
    let mut i: usize = 0;
    while i < values.len()
        invariant
            i <= values@.len(),
            out@.len() == i,
            all_u32(values@.subrange(0, i as int)),
            forall|j: int| 0 <= j < i ==> #[trigger] out@[j] as i64 == values@[j],
        decreases values.len() - i,
    {
        let v = values[i];
        if v < 0 || v > u32::MAX as i64 {
            assert(values@.subrange(0, values@.len() as int) =~= values@);
            assert(!all_u32(values@)) by {
                assert(!(0 <= values@[i as int] <= u32::MAX));
            }
            return None;
        }
        out.push(v as u32);
        i = i + 1;
        assert forall|j: int| 0 <= j < i implies 0 <= #[trigger] values@.subrange(0, i as int)[j] <= u32::MAX by {
            if j < i - 1 {
                assert(values@.subrange(0, i as int)[j] == values@.subrange(0, i - 1)[j]);
            }
        }
    }
    assert(values@.subrange(0, values@.len() as int) =~= values@);
    Some(out)
}

/// Names the setting that failed.
fn missing(key: &str) -> (r: SettingError)
    ensures
        r.key@ == key@,
{
    SettingError { key: String::from_str(key) }
}

impl ConfigFile {
    /// Builds the configuration record from setting values; `None` where a
    /// port does not fit in 32 bits.
    pub fn from_values(
        bot_token: String,
        server_address: String,
        ports: Vec<i64>,
        location: String,
        admin_list: Vec<i64>,
        log_chat: i64,
        prefix: String,
    ) -> (r: Option<ConfigFile>)
        ensures
            r is Some <==> all_u32(ports@),
            r matches Some(c) ==> {
                &&& c.bot_token@ == bot_token@
                &&& c.server_address@ == server_address@
                &&& c.ports@.len() == ports@.len()
                &&& forall|i: int| 0 <= i < ports@.len() ==> #[trigger] c.ports@[i] as i64 == ports@[i]
                &&& c.location@ == location@
                &&& c.admin_list@ == admin_list@
                &&& c.log_chat == log_chat
                &&& c.prefix@ == prefix@
            },
    {
        let ports = ports_from(&ports)?;
        Some(ConfigFile { bot_token, server_address, ports, location, admin_list, log_chat, prefix })
    }

    /// Reads the configuration record out of loaded settings, naming the first
    /// setting that is absent or ill-typed; ports must fit in 32 bits.
    pub fn load(settings: &::config::Config) -> (r: Result<ConfigFile, SettingError>)
        ensures
            r matches Err(e) ==> (e.key@ == "bot_token"@ || e.key@ == "server_address"@ || e.key@
                == "ports"@ || e.key@ == "location"@ || e.key@ == "admin_list"@ || e.key@
                == "log_chat"@ || e.key@ == "prefix"@),
    {
        let bot_token = match setting_text(settings, "bot_token") {
            Ok(v) => v,
            Err(_) => return Err(missing("bot_token")),
        };
        let server_address = match setting_text(settings, "server_address") {
            Ok(v) => v,
            Err(_) => return Err(missing("server_address")),
        };
        let ports = match setting_int_list(settings, "ports") {
            Ok(v) => v,
            Err(_) => return Err(missing("ports")),
        };
        let location = match setting_text(settings, "location") {
            Ok(v) => v,
            Err(_) => return Err(missing("location")),
        };
        let admin_list = match setting_int_list(settings, "admin_list") {
            Ok(v) => v,
            Err(_) => return Err(missing("admin_list")),
        };
        let log_chat = match setting_int(settings, "log_chat") {
            Ok(v) => v,
            Err(_) => return Err(missing("log_chat")),
        };
        let prefix = match setting_text(settings, "prefix") {
            Ok(v) => v,
            Err(_) => return Err(missing("prefix")),
        };
        match ConfigFile::from_values(
            bot_token,
            server_address,
            ports,
            location,
            admin_list,
            log_chat,
            prefix,
        ) {
            Some(c) => Ok(c),
            None => Err(missing("ports")),
        }
    }
}

/// The port numbers in decimal, separated by `, `.
pub open spec fn ports_text(ports: Seq<u32>) -> Seq<char>
    decreases ports.len(),
{
    if ports.len() == 0 {
        Seq::empty()
    } else if ports.len() == 1 {
        zero_padded(ports[0] as nat, 1)
    } else {
        ports_text(ports.drop_last()) + ", "@ + zero_padded(ports.last() as nat, 1)
    }
}

impl ConfigFile {
    /// The operator-facing summary of the server: host, location and ports.
    pub fn to_string(&self) -> (r: String)
        ensures
            r@ == "host: `"@ + self.server_address@ + "`\nlocation: `"@ + self.location@
                + "`\nports: `["@ + ports_text(self.ports@) + "]`"@,
    {
        let mut out = String::from_str("host: `");
        out.append(self.server_address.as_str());
        out.append("`\nlocation: `");
        out.append(self.location.as_str());
        out.append("`\nports: `[");
        let ghost start = out@;
        let mut i: usize = 0;
        while i < self.ports.len()
            invariant
                i <= self.ports@.len(),
                out@ == start + ports_text(self.ports@.subrange(0, i as int)),
            decreases self.ports.len() - i,
        {
            let ghost before = out@;
            if i > 0 {
                out.append(", ");
            }
            push_zero_padded(&mut out, self.ports[i] as u64, 1);
            i = i + 1;
            proof {
                let sub = self.ports@.subrange(0, i as int);
                assert(sub.drop_last() =~= self.ports@.subrange(0, i - 1));
                if i == 1 {
                    assert(self.ports@.subrange(0, 0) =~= Seq::<u32>::empty());
                    assert(out@ =~= start + ports_text(sub));
                } else {
                    assert(out@ =~= start + ports_text(sub));
                }
            }
        }
        assert(self.ports@.subrange(0, self.ports@.len() as int) =~= self.ports@);
        out.append("]`");
        out
    }
}

} // verus!
