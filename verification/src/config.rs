//! Settings given on the command line, and the dictionary they contribute to
//! a layered configuration.
//!
//! Only what was given appears in the dictionary: an empty list or an absent
//! option leaves its key out, so that a lower layer can supply it.

use vstd::prelude::*;

verus! {

/// The keys a command line can set.
#[derive(Clone, Copy, Debug, PartialEq, Eq, Hash, Structural)]
pub enum ConfigKey {
    ExecutionRpcs,
    ExecutionVerifiableApi,
    ConsensusRpcs,
    Checkpoint,
    RpcBindIp,
    RpcPort,
    DataDir,
    Fallback,
    LoadExternalFallback,
    StrictCheckpointAge,
}

/// How many keys there are.
pub const KEY_COUNT: usize = 10;

impl ConfigKey {
    /// The position of the key in the order in which settings are emitted.
    pub open spec fn index(&self) -> nat {
        match self {
            ConfigKey::ExecutionRpcs => 0,
            ConfigKey::ExecutionVerifiableApi => 1,
            ConfigKey::ConsensusRpcs => 2,
            ConfigKey::Checkpoint => 3,
            ConfigKey::RpcBindIp => 4,
            ConfigKey::RpcPort => 5,
            ConfigKey::DataDir => 6,
            ConfigKey::Fallback => 7,
            ConfigKey::LoadExternalFallback => 8,
            ConfigKey::StrictCheckpointAge => 9,
        }
    }

    /// The key's name in a configuration file.
    pub open spec fn name_text(&self) -> Seq<char> {
        match self {
            ConfigKey::ExecutionRpcs => "execution_rpcs"@,
            ConfigKey::ExecutionVerifiableApi => "execution_verifiable_api"@,
            ConfigKey::ConsensusRpcs => "consensus_rpcs"@,
            ConfigKey::Checkpoint => "checkpoint"@,
            ConfigKey::RpcBindIp => "rpc_bind_ip"@,
            ConfigKey::RpcPort => "rpc_port"@,
            ConfigKey::DataDir => "data_dir"@,
            ConfigKey::Fallback => "fallback"@,
            ConfigKey::LoadExternalFallback => "load_external_fallback"@,
            ConfigKey::StrictCheckpointAge => "strict_checkpoint_age"@,
        }
    }

    /// The key at a position; every position below [`KEY_COUNT`] has one.
    pub fn from_index(i: usize) -> (k: Option<ConfigKey>)
        ensures
            i < KEY_COUNT ==> k is Some && k->0.index() == i,
            i >= KEY_COUNT ==> k is None,
    {
        if i == 0 {
            Some(ConfigKey::ExecutionRpcs)
        } else if i == 1 {
            Some(ConfigKey::ExecutionVerifiableApi)
        } else if i == 2 {
            Some(ConfigKey::ConsensusRpcs)
        } else if i == 3 {
            Some(ConfigKey::Checkpoint)
        } else if i == 4 {
            Some(ConfigKey::RpcBindIp)
        } else if i == 5 {
            Some(ConfigKey::RpcPort)
        } else if i == 6 {
            Some(ConfigKey::DataDir)
        } else if i == 7 {
            Some(ConfigKey::Fallback)
        } else if i == 8 {
            Some(ConfigKey::LoadExternalFallback)
        } else if i == 9 {
            Some(ConfigKey::StrictCheckpointAge)
        } else {
            None
        }
    }

    /// The key's name in a configuration file.
    pub fn name(&self) -> (s: &'static str)
        ensures
            s@ == self.name_text(),
    {
        match self {
            ConfigKey::ExecutionRpcs => "execution_rpcs",
            ConfigKey::ExecutionVerifiableApi => "execution_verifiable_api",
            ConfigKey::ConsensusRpcs => "consensus_rpcs",
            ConfigKey::Checkpoint => "checkpoint",
            ConfigKey::RpcBindIp => "rpc_bind_ip",
            ConfigKey::RpcPort => "rpc_port",
            ConfigKey::DataDir => "data_dir",
            ConfigKey::Fallback => "fallback",
            ConfigKey::LoadExternalFallback => "load_external_fallback",
            ConfigKey::StrictCheckpointAge => "strict_checkpoint_age",
        }
    }
}

/// Every key has a position below [`KEY_COUNT`], and no two keys share one.
pub proof fn lemma_key_index(a: ConfigKey, b: ConfigKey)
    ensures
        a.index() < KEY_COUNT,
        a.index() == b.index() ==> a == b,
{
}

/// A value a setting can have.
#[derive(Clone, Debug, PartialEq, Eq)]
pub enum ConfigValue {
    Text(String),
    TextList(Vec<String>),
    Number(u16),
    Flag(bool),
}

/// What a [`ConfigValue`] holds, as plain text and numbers.
pub enum ConfigValueView {
    Text(Seq<char>),
    TextList(Seq<Seq<char>>),
    Number(u16),
    Flag(bool),
}

/// The texts of a list of strings, in order.
pub open spec fn texts(list: Seq<String>) -> Seq<Seq<char>> {
    list.map_values(|s: String| s@)
}

impl View for ConfigValue {
    type V = ConfigValueView;

    open spec fn view(&self) -> ConfigValueView {
        match self {
            ConfigValue::Text(s) => ConfigValueView::Text(s@),
            ConfigValue::TextList(list) => ConfigValueView::TextList(texts(list@)),
            ConfigValue::Number(n) => ConfigValueView::Number(*n),
            ConfigValue::Flag(b) => ConfigValueView::Flag(*b),
        }
    }
}

/// The lowercase hexadecimal digit of a value below sixteen.
pub open spec fn hex_digit(nibble: int) -> char {
    seq!['0', '1', '2', '3', '4', '5', '6', '7', '8', '9', 'a', 'b', 'c', 'd', 'e', 'f'][nibble]
}

/// Bytes written as lowercase hexadecimal text: two digits per byte, the
/// high half first.
pub open spec fn hex_text(bytes: Seq<u8>) -> Seq<char> {
    Seq::new(
        2 * bytes.len(),
        |i: int|
            if i % 2 == 0 {
                hex_digit(bytes[i / 2] as int / 16)
            } else {
                hex_digit(bytes[i / 2] as int % 16)
            },
    )
}

/// `hex::encode` on a 32-byte digest. The crate documents the result as the
/// lowercase hexadecimal form of the input, two digits for each byte in
/// order; the contract states exactly that. Not proved here.
#[verifier::external_body]
fn hex_encode(bytes: &[u8; 32]) -> (s: String)
    ensures
        s@ == hex_text(bytes@),
{
    hex::encode(bytes)
}

/// A copy of a list of strings.
fn clone_texts(list: &Vec<String>) -> (out: Vec<String>)
    ensures
        texts(out@) == texts(list@),
{
    let mut out: Vec<String> = Vec::new();
    let mut i: usize = 0;
    while i < list.len()
        invariant
            i <= list.len(),
            out@.len() == i,
            forall|j: int| 0 <= j < i ==> out@[j]@ == list@[j]@,
        decreases list.len() - i,
    {
        out.push(list[i].clone());
        i += 1;
    }
    assert(texts(out@) =~= texts(list@));
    out
}

/// One entry of a dictionary.
#[derive(Clone, Debug, PartialEq, Eq)]
pub struct Setting {
    pub key: ConfigKey,
    pub value: ConfigValue,
}

/// A dictionary of settings for one profile of a layered configuration.
#[derive(Debug, PartialEq, Eq)]
pub struct Provider {
    profile: String,
    entries: Vec<Setting>,
}

impl Provider {
    /// No key occurs twice.
    #[verifier::type_invariant]
    spec fn wf(&self) -> bool {
        forall|a: int, b: int|
            0 <= a < b < self.entries@.len() ==> self.entries@[a].key != self.entries@[b].key
    }

    /// The profile the settings belong to.
    pub closed spec fn profile_text(&self) -> Seq<char> {
        self.profile@
    }

    /// The entries, in the order in which they were emitted.
    pub closed spec fn entries_view(&self) -> Seq<Setting> {
        self.entries@
    }

    /// Whether an entry with this key is present.
    pub open spec fn has(&self, key: ConfigKey) -> bool {
        exists|i: int| 0 <= i < self.entries_view().len() && self.entries_view()[i].key == key
    }

    /// The position of the entry with this key.
    pub open spec fn position(&self, key: ConfigKey) -> int {
        choose|i: int| 0 <= i < self.entries_view().len() && self.entries_view()[i].key == key
    }

    /// The profile the settings belong to.
    pub fn profile(&self) -> (s: &str)
        ensures
            s@ == self.profile_text(),
    {
        self.profile.as_str()
    }

    /// The entries, each key once.
    pub fn entries(&self) -> (e: &Vec<Setting>)
        ensures
            e@ == self.entries_view(),
    {
        &self.entries
    }

    /// The value set for a key, if there is one.
    pub fn get(&self, key: ConfigKey) -> (v: Option<&ConfigValue>)
        ensures
            match v {
                Some(value) => self@.contains_key(key) && self@[key] == value@,
                None => !self@.contains_key(key),
            },
    {
        proof {
            use_type_invariant(self);
        }
        let mut i: usize = 0;
        while i < self.entries.len()
            invariant
                self.wf(),
                i <= self.entries@.len(),
                forall|j: int| 0 <= j < i ==> self.entries@[j].key != key,
            decreases self.entries.len() - i,
        {
            if self.entries[i].key == key {
                proof {
                    assert(self.entries_view()[i as int].key == key);
                    let p = self.position(key);
                    assert(self.entries_view()[p].key == key);
                    assert(p == i);
                }
                return Some(&self.entries[i].value);
            }
            i += 1;
        }
        None
    }
}

impl View for Provider {
    type V = Map<ConfigKey, ConfigValueView>;

    /// The dictionary: each key that occurs, with the value of its entry.
    open spec fn view(&self) -> Map<ConfigKey, ConfigValueView> {
        Map::new(
            |key: ConfigKey| self.has(key),
            |key: ConfigKey| self.entries_view()[self.position(key)].value@,
        )
    }
}

/// The settings given on a command line, as plain values.
#[derive(Clone, Debug, PartialEq, Eq)]
pub struct CliConfig {
    pub execution_rpcs: Vec<String>,
    pub execution_verifiable_api: Option<String>,
    pub consensus_rpcs: Vec<String>,
    pub checkpoint: Option<[u8; 32]>,
    pub rpc_bind_ip: Option<String>,
    pub rpc_port: Option<u16>,
    pub data_dir: Option<String>,
    pub fallback: Option<String>,
    pub load_external_fallback: Option<bool>,
    pub strict_checkpoint_age: Option<bool>,
}

impl Default for CliConfig {
    /// Nothing given.
    fn default() -> (c: CliConfig)
        ensures
            c.settings() == Map::<ConfigKey, ConfigValueView>::empty(),
    {
        let c = CliConfig {
            execution_rpcs: Vec::new(),
            execution_verifiable_api: None,
            consensus_rpcs: Vec::new(),
            checkpoint: None,
            rpc_bind_ip: None,
            rpc_port: None,
            data_dir: None,
            fallback: None,
            load_external_fallback: None,
            strict_checkpoint_age: None,
        };
        assert(c.settings() =~= Map::<ConfigKey, ConfigValueView>::empty());
        c
    }
}

impl CliConfig {
    /// What the command line gives for one key: nothing for an empty list or
    /// an absent option, otherwise the value as it is written to the
    /// dictionary. A checkpoint is written as lowercase hexadecimal text.
    pub open spec fn setting(&self, key: ConfigKey) -> Option<ConfigValueView> {
        match key {
            ConfigKey::ExecutionRpcs => if self.execution_rpcs@.len() > 0 {
                Some(ConfigValueView::TextList(texts(self.execution_rpcs@)))
            } else {
                None
            },
            ConfigKey::ExecutionVerifiableApi => match self.execution_verifiable_api {
                Some(api) => Some(ConfigValueView::Text(api@)),
                None => None,
            },
            ConfigKey::ConsensusRpcs => if self.consensus_rpcs@.len() > 0 {
                Some(ConfigValueView::TextList(texts(self.consensus_rpcs@)))
            } else {
                None
            },
            ConfigKey::Checkpoint => match self.checkpoint {
                Some(digest) => Some(ConfigValueView::Text(hex_text(digest@))),
                None => None,
            },
            ConfigKey::RpcBindIp => match self.rpc_bind_ip {
                Some(ip) => Some(ConfigValueView::Text(ip@)),
                None => None,
            },
            ConfigKey::RpcPort => match self.rpc_port {
                Some(port) => Some(ConfigValueView::Number(port)),
                None => None,
            },
            ConfigKey::DataDir => match self.data_dir {
                Some(dir) => Some(ConfigValueView::Text(dir@)),
                None => None,
            },
            ConfigKey::Fallback => match self.fallback {
                Some(fallback) => Some(ConfigValueView::Text(fallback@)),
                None => None,
            },
            ConfigKey::LoadExternalFallback => match self.load_external_fallback {
                Some(flag) => Some(ConfigValueView::Flag(flag)),
                None => None,
            },
            ConfigKey::StrictCheckpointAge => match self.strict_checkpoint_age {
                Some(flag) => Some(ConfigValueView::Flag(flag)),
                None => None,
            },
        }
    }

    /// The dictionary the command line contributes: the keys that were given,
    /// each with its value.
    pub open spec fn settings(&self) -> Map<ConfigKey, ConfigValueView> {
        Map::new(
            |key: ConfigKey| self.setting(key) is Some,
            |key: ConfigKey| self.setting(key)->0,
        )
    }

    /// The value to write for one key, if the command line gave one.
    pub fn value_of(&self, key: ConfigKey) -> (v: Option<ConfigValue>)
        ensures
            match v {
                Some(value) => self.setting(key) == Some(value@),
                None => self.setting(key) is None,
            },
    {
        match key {
            ConfigKey::ExecutionRpcs => {
                if self.execution_rpcs.len() > 0 {
                    Some(ConfigValue::TextList(clone_texts(&self.execution_rpcs)))
                } else {
                    None
                }
            },
            ConfigKey::ExecutionVerifiableApi => match &self.execution_verifiable_api {
                Some(api) => Some(ConfigValue::Text(api.clone())),
                None => None,
            },
            ConfigKey::ConsensusRpcs => {
                if self.consensus_rpcs.len() > 0 {
                    Some(ConfigValue::TextList(clone_texts(&self.consensus_rpcs)))
                } else {
                    None
                }
            },
            ConfigKey::Checkpoint => match &self.checkpoint {
                Some(digest) => Some(ConfigValue::Text(hex_encode(digest))),
                None => None,
            },
            ConfigKey::RpcBindIp => match &self.rpc_bind_ip {
                Some(ip) => Some(ConfigValue::Text(ip.clone())),
                None => None,
            },
            ConfigKey::RpcPort => match self.rpc_port {
                Some(port) => Some(ConfigValue::Number(port)),
                None => None,
            },
            ConfigKey::DataDir => match &self.data_dir {
                Some(dir) => Some(ConfigValue::Text(dir.clone())),
                None => None,
            },
            ConfigKey::Fallback => match &self.fallback {
                Some(fallback) => Some(ConfigValue::Text(fallback.clone())),
                None => None,
            },
            ConfigKey::LoadExternalFallback => match self.load_external_fallback {
                Some(flag) => Some(ConfigValue::Flag(flag)),
                None => None,
            },
            ConfigKey::StrictCheckpointAge => match self.strict_checkpoint_age {
                Some(flag) => Some(ConfigValue::Flag(flag)),
                None => None,
            },
        }
    }

    /// The dictionary of what was given, for the profile named by `network`.
    ///
    /// A key is present exactly when its setting was given, and then holds
    /// that setting; nothing else is in the dictionary.
    pub fn as_provider(&self, network: &str) -> (p: Provider)
        ensures
            p.profile_text() == network@,
            p@ == self.settings(),
    {
        let mut entries: Vec<Setting> = Vec::new();
        let mut i: usize = 0;
        while i < KEY_COUNT
            invariant
                i <= KEY_COUNT,
                forall|a: int, b: int|
                    0 <= a < b < entries@.len() ==> entries@[a].key != entries@[b].key,
                forall|j: int|
                    0 <= j < entries@.len() ==> (#[trigger] entries@[j]).key.index() < i
                        && self.setting(entries@[j].key) == Some(entries@[j].value@),
                forall|key: ConfigKey|
                    key.index() < i && #[trigger] self.setting(key) is Some ==> exists|j: int|
                        0 <= j < entries@.len() && entries@[j].key == key,
            decreases KEY_COUNT - i,
        {
            let key = ConfigKey::from_index(i).unwrap();
            let ghost before = entries@;
            match self.value_of(key) {
                Some(value) => {
                    entries.push(Setting { key, value });
                    proof {
                        let last = before.len() as int;
                        assert(entries@[last].key == key);
                        assert forall|other: ConfigKey|
                            other.index() < i + 1 && #[trigger] self.setting(
                                other,
                            ) is Some implies exists|j: int|
                            0 <= j < entries@.len() && entries@[j].key == other by {
                            if other.index() < i {
                                let j = choose|j: int|
                                    0 <= j < before.len() && before[j].key == other;
                                assert(entries@[j].key == other);
                            } else {
                                lemma_key_index(other, key);
                                assert(entries@[last].key == other);
                            }
                        }
                    }
                },
                None => {
                    proof {
                        assert forall|other: ConfigKey|
                            other.index() < i + 1 && #[trigger] self.setting(
                                other,
                            ) is Some implies exists|j: int|
                            0 <= j < entries@.len() && entries@[j].key == other by {
                            if other.index() >= i {
                                lemma_key_index(other, key);
                            }
                        }
                    }
                },
            }
            i += 1;
        }
        let p = Provider { profile: network.to_owned(), entries };
        proof {
            assert forall|key: ConfigKey| p.has(key) <==> self.setting(key) is Some by {
                lemma_key_index(key, key);
            }
            assert forall|key: ConfigKey| p.has(key) implies p.entries_view()[p.position(
                key,
            )].value@ == self.setting(key)->0 by {
                let j = p.position(key);
                assert(p.entries_view()[j].key == key);
            }
            assert(p@ =~= self.settings());
        }
        p
    }
}

} // verus!
