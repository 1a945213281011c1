//! The method table of the server: every method it offers, the namespace it
//! belongs to and the name it has on the wire.
//!
//! The table is fixed. A server registers one handler for each entry when it
//! starts, under the entry's wire name. No two entries share a wire name, so
//! the tables of the two namespaces never collide when they are merged.

use vstd::prelude::*;

verus! {

/// A group of related methods, named by the prefix of their wire names.
#[derive(Clone, Copy, Debug, PartialEq, Eq, Hash, Structural)]
pub enum Namespace {
    /// Queries about the execution layer.
    Eth,
    /// Queries about the network.
    Net,
}

/// A method the server offers.
#[derive(Clone, Copy, Debug, PartialEq, Eq, Hash, Structural)]
pub enum Method {
    GetBalance,
    GetTransactionCount,
    GetBlockTransactionCountByHash,
    GetBlockTransactionCountByNumber,
    GetCode,
    GetClientVersion,
    Call,
    EstimateGas,
    ChainId,
    GasPrice,
    MaxPriorityFeePerGas,
    BlockNumber,
    GetBlockByNumber,
    GetBlockByHash,
    SendRawTransaction,
    GetTransactionReceipt,
    GetTransactionByHash,
    GetTransactionByBlockHashAndIndex,
    GetLogs,
    GetFilterChanges,
    UninstallFilter,
    NewFilter,
    NewBlockFilter,
    NewPendingTransactionFilter,
    GetStorageAt,
    Coinbase,
    Syncing,
    Version,
}

/// How many methods the table holds.
pub const METHOD_COUNT: usize = 28;

impl Namespace {
    /// The prefix that the namespace puts before a method's name.
    pub open spec fn prefix_text(&self) -> Seq<char> {
        match self {
            Namespace::Eth => "eth"@,
            Namespace::Net => "net"@,
        }
    }

    /// The prefix that the namespace puts before a method's name.
    pub fn prefix(&self) -> (s: &'static str)
        ensures
            s@ == self.prefix_text(),
    {
        match self {
            Namespace::Eth => "eth",
            Namespace::Net => "net",
        }
    }
}

impl Method {
    /// The method's position in the table.
    pub open spec fn index(&self) -> nat {
        match self {
            Method::GetBalance => 0,
            Method::GetTransactionCount => 1,
            Method::GetBlockTransactionCountByHash => 2,
            Method::GetBlockTransactionCountByNumber => 3,
            Method::GetCode => 4,
            Method::GetClientVersion => 5,
            Method::Call => 6,
            Method::EstimateGas => 7,
            Method::ChainId => 8,
            Method::GasPrice => 9,
            Method::MaxPriorityFeePerGas => 10,
            Method::BlockNumber => 11,
            Method::GetBlockByNumber => 12,
            Method::GetBlockByHash => 13,
            Method::SendRawTransaction => 14,
            Method::GetTransactionReceipt => 15,
            Method::GetTransactionByHash => 16,
            Method::GetTransactionByBlockHashAndIndex => 17,
            Method::GetLogs => 18,
            Method::GetFilterChanges => 19,
            Method::UninstallFilter => 20,
            Method::NewFilter => 21,
            Method::NewBlockFilter => 22,
            Method::NewPendingTransactionFilter => 23,
            Method::GetStorageAt => 24,
            Method::Coinbase => 25,
            Method::Syncing => 26,
            Method::Version => 27,
        }
    }

    /// The namespace the method belongs to.
    pub open spec fn namespace_of(&self) -> Namespace {
        match self {
            Method::Version => Namespace::Net,
            _ => Namespace::Eth,
        }
    }

    /// The method's name within its namespace.
    pub open spec fn local_text(&self) -> Seq<char> {
        match self {
            Method::GetBalance => "getBalance"@,
            Method::GetTransactionCount => "getTransactionCount"@,
            Method::GetBlockTransactionCountByHash => "getBlockTransactionCountByHash"@,
            Method::GetBlockTransactionCountByNumber => "getBlockTransactionCountByNumber"@,
            Method::GetCode => "getCode"@,
            Method::GetClientVersion => "getClientVersion"@,
            Method::Call => "call"@,
            Method::EstimateGas => "estimateGas"@,
            Method::ChainId => "chainId"@,
            Method::GasPrice => "gasPrice"@,
            Method::MaxPriorityFeePerGas => "maxPriorityFeePerGas"@,
            Method::BlockNumber => "blockNumber"@,
            Method::GetBlockByNumber => "getBlockByNumber"@,
            Method::GetBlockByHash => "getBlockByHash"@,
            Method::SendRawTransaction => "sendRawTransaction"@,
            Method::GetTransactionReceipt => "getTransactionReceipt"@,
            Method::GetTransactionByHash => "getTransactionByHash"@,
            Method::GetTransactionByBlockHashAndIndex => "getTransactionByBlockHashAndIndex"@,
            Method::GetLogs => "getLogs"@,
            Method::GetFilterChanges => "getFilterChanges"@,
            Method::UninstallFilter => "uninstallFilter"@,
            Method::NewFilter => "newFilter"@,
            Method::NewBlockFilter => "newBlockFilter"@,
            Method::NewPendingTransactionFilter => "newPendingTransactionFilter"@,
            Method::GetStorageAt => "getStorageAt"@,
            Method::Coinbase => "coinbase"@,
            Method::Syncing => "syncing"@,
            Method::Version => "version"@,
        }
    }

    /// The method's name on the wire: the namespace's prefix, an underscore,
    /// and the name within the namespace.
    pub open spec fn name_text(&self) -> Seq<char> {
        self.namespace_of().prefix_text() + seq!['_'] + self.local_text()
    }

    /// The method at a position of the table; every position below
    /// [`METHOD_COUNT`] has one.
    pub fn from_index(i: usize) -> (m: Option<Method>)
        ensures
            i < METHOD_COUNT ==> m is Some && m->0.index() == i,
            i >= METHOD_COUNT ==> m is None,
    {
        match i {
            0 => Some(Method::GetBalance),
            1 => Some(Method::GetTransactionCount),
            2 => Some(Method::GetBlockTransactionCountByHash),
            3 => Some(Method::GetBlockTransactionCountByNumber),
            4 => Some(Method::GetCode),
            5 => Some(Method::GetClientVersion),
            6 => Some(Method::Call),
            7 => Some(Method::EstimateGas),
            8 => Some(Method::ChainId),
            9 => Some(Method::GasPrice),
            10 => Some(Method::MaxPriorityFeePerGas),
            11 => Some(Method::BlockNumber),
            12 => Some(Method::GetBlockByNumber),
            13 => Some(Method::GetBlockByHash),
            14 => Some(Method::SendRawTransaction),
            15 => Some(Method::GetTransactionReceipt),
            16 => Some(Method::GetTransactionByHash),
            17 => Some(Method::GetTransactionByBlockHashAndIndex),
            18 => Some(Method::GetLogs),
            19 => Some(Method::GetFilterChanges),
            20 => Some(Method::UninstallFilter),
            21 => Some(Method::NewFilter),
            22 => Some(Method::NewBlockFilter),
            23 => Some(Method::NewPendingTransactionFilter),
            24 => Some(Method::GetStorageAt),
            25 => Some(Method::Coinbase),
            26 => Some(Method::Syncing),
            27 => Some(Method::Version),
            _ => None,
        }
    }

    /// The namespace the method belongs to.
    pub fn namespace(&self) -> (ns: Namespace)
        ensures
            ns == self.namespace_of(),
    {
        match self {
            Method::Version => Namespace::Net,
            _ => Namespace::Eth,
        }
    }

    /// The method's name on the wire.
    pub fn name(&self) -> (s: &'static str)
        ensures
            s@ == self.name_text(),
    {
        proof {
            lemma_wire_names(*self);
        }
        match self {
            Method::GetBalance => "eth_getBalance",
            Method::GetTransactionCount => "eth_getTransactionCount",
            Method::GetBlockTransactionCountByHash => "eth_getBlockTransactionCountByHash",
            Method::GetBlockTransactionCountByNumber => "eth_getBlockTransactionCountByNumber",
            Method::GetCode => "eth_getCode",
            Method::GetClientVersion => "eth_getClientVersion",
            Method::Call => "eth_call",
            Method::EstimateGas => "eth_estimateGas",
            Method::ChainId => "eth_chainId",
            Method::GasPrice => "eth_gasPrice",
            Method::MaxPriorityFeePerGas => "eth_maxPriorityFeePerGas",
            Method::BlockNumber => "eth_blockNumber",
            Method::GetBlockByNumber => "eth_getBlockByNumber",
            Method::GetBlockByHash => "eth_getBlockByHash",
            Method::SendRawTransaction => "eth_sendRawTransaction",
            Method::GetTransactionReceipt => "eth_getTransactionReceipt",
            Method::GetTransactionByHash => "eth_getTransactionByHash",
            Method::GetTransactionByBlockHashAndIndex => "eth_getTransactionByBlockHashAndIndex",
            Method::GetLogs => "eth_getLogs",
            Method::GetFilterChanges => "eth_getFilterChanges",
            Method::UninstallFilter => "eth_uninstallFilter",
            Method::NewFilter => "eth_newFilter",
            Method::NewBlockFilter => "eth_newBlockFilter",
            Method::NewPendingTransactionFilter => "eth_newPendingTransactionFilter",
            Method::GetStorageAt => "eth_getStorageAt",
            Method::Coinbase => "eth_coinbase",
            Method::Syncing => "eth_syncing",
            Method::Version => "net_version",
        }
    }

    /// Every method, in the order of the table.
    pub fn all() -> (table: Vec<Method>)
        ensures
            table@.len() == METHOD_COUNT,
            forall|i: int| 0 <= i < METHOD_COUNT ==> (#[trigger] table@[i]).index() == i,
    {
        let mut table: Vec<Method> = Vec::new();
        let mut i: usize = 0;
        while i < METHOD_COUNT
            invariant
                i <= METHOD_COUNT,
                table@.len() == i,
                forall|j: int| 0 <= j < i ==> (#[trigger] table@[j]).index() == j,
            decreases METHOD_COUNT - i,
        {
            match Method::from_index(i) {
                Some(method) => table.push(method),
                None => {},
            }
            i += 1;
        }
        table
    }
}

/// The wire name of each method, written out.
spec fn written_name(method: Method) -> Seq<char> {
    match method {
        Method::GetBalance => "eth_getBalance"@,
        Method::GetTransactionCount => "eth_getTransactionCount"@,
        Method::GetBlockTransactionCountByHash => "eth_getBlockTransactionCountByHash"@,
        Method::GetBlockTransactionCountByNumber => "eth_getBlockTransactionCountByNumber"@,
        Method::GetCode => "eth_getCode"@,
        Method::GetClientVersion => "eth_getClientVersion"@,
        Method::Call => "eth_call"@,
        Method::EstimateGas => "eth_estimateGas"@,
        Method::ChainId => "eth_chainId"@,
        Method::GasPrice => "eth_gasPrice"@,
        Method::MaxPriorityFeePerGas => "eth_maxPriorityFeePerGas"@,
        Method::BlockNumber => "eth_blockNumber"@,
        Method::GetBlockByNumber => "eth_getBlockByNumber"@,
        Method::GetBlockByHash => "eth_getBlockByHash"@,
        Method::SendRawTransaction => "eth_sendRawTransaction"@,
        Method::GetTransactionReceipt => "eth_getTransactionReceipt"@,
        Method::GetTransactionByHash => "eth_getTransactionByHash"@,
        Method::GetTransactionByBlockHashAndIndex => "eth_getTransactionByBlockHashAndIndex"@,
        Method::GetLogs => "eth_getLogs"@,
        Method::GetFilterChanges => "eth_getFilterChanges"@,
        Method::UninstallFilter => "eth_uninstallFilter"@,
        Method::NewFilter => "eth_newFilter"@,
        Method::NewBlockFilter => "eth_newBlockFilter"@,
        Method::NewPendingTransactionFilter => "eth_newPendingTransactionFilter"@,
        Method::GetStorageAt => "eth_getStorageAt"@,
        Method::Coinbase => "eth_coinbase"@,
        Method::Syncing => "eth_syncing"@,
        Method::Version => "net_version"@,
    }
}

/// The written names are the wire names.
proof fn lemma_wire_names(method: Method)
    ensures
        written_name(method) == method.name_text(),
{
    reveal_strlit("eth");
    reveal_strlit("net");
    reveal_strlit("getBalance");
    reveal_strlit("eth_getBalance");
    reveal_strlit("getTransactionCount");
    reveal_strlit("eth_getTransactionCount");
    reveal_strlit("getBlockTransactionCountByHash");
    reveal_strlit("eth_getBlockTransactionCountByHash");
    reveal_strlit("getBlockTransactionCountByNumber");
    reveal_strlit("eth_getBlockTransactionCountByNumber");
    reveal_strlit("getCode");
    reveal_strlit("eth_getCode");
    reveal_strlit("getClientVersion");
    reveal_strlit("eth_getClientVersion");
    reveal_strlit("call");
    reveal_strlit("eth_call");
    reveal_strlit("estimateGas");
    reveal_strlit("eth_estimateGas");
    reveal_strlit("chainId");
    reveal_strlit("eth_chainId");
    reveal_strlit("gasPrice");
    reveal_strlit("eth_gasPrice");
    reveal_strlit("maxPriorityFeePerGas");
    reveal_strlit("eth_maxPriorityFeePerGas");
    reveal_strlit("blockNumber");
    reveal_strlit("eth_blockNumber");
    reveal_strlit("getBlockByNumber");
    reveal_strlit("eth_getBlockByNumber");
    reveal_strlit("getBlockByHash");
    reveal_strlit("eth_getBlockByHash");
    reveal_strlit("sendRawTransaction");
    reveal_strlit("eth_sendRawTransaction");
    reveal_strlit("getTransactionReceipt");
    reveal_strlit("eth_getTransactionReceipt");
    reveal_strlit("getTransactionByHash");
    reveal_strlit("eth_getTransactionByHash");
    reveal_strlit("getTransactionByBlockHashAndIndex");
    reveal_strlit("eth_getTransactionByBlockHashAndIndex");
    reveal_strlit("getLogs");
    reveal_strlit("eth_getLogs");
    reveal_strlit("getFilterChanges");
    reveal_strlit("eth_getFilterChanges");
    reveal_strlit("uninstallFilter");
    reveal_strlit("eth_uninstallFilter");
    reveal_strlit("newFilter");
    reveal_strlit("eth_newFilter");
    reveal_strlit("newBlockFilter");
    reveal_strlit("eth_newBlockFilter");
    reveal_strlit("newPendingTransactionFilter");
    reveal_strlit("eth_newPendingTransactionFilter");
    reveal_strlit("getStorageAt");
    reveal_strlit("eth_getStorageAt");
    reveal_strlit("coinbase");
    reveal_strlit("eth_coinbase");
    reveal_strlit("syncing");
    reveal_strlit("eth_syncing");
    reveal_strlit("version");
    reveal_strlit("net_version");
    assert(written_name(method) =~= method.name_text());
}

/// What tells one wire name from every other: its length and the
/// characters at two places.
spec fn mark(name: Seq<char>) -> (nat, char, char) {
    (name.len(), name[4], name[7])
}

/// The mark of each method's wire name.
spec fn mark_of(method: Method) -> (nat, char, char) {
    match method {
        Method::GetBalance => (14, 'g', 'B'),
        Method::GetTransactionCount => (23, 'g', 'T'),
        Method::GetBlockTransactionCountByHash => (34, 'g', 'B'),
        Method::GetBlockTransactionCountByNumber => (36, 'g', 'B'),
        Method::GetCode => (11, 'g', 'C'),
        Method::GetClientVersion => (20, 'g', 'C'),
        Method::Call => (8, 'c', 'l'),
        Method::EstimateGas => (15, 'e', 'i'),
        Method::ChainId => (11, 'c', 'i'),
        Method::GasPrice => (12, 'g', 'P'),
        Method::MaxPriorityFeePerGas => (24, 'm', 'P'),
        Method::BlockNumber => (15, 'b', 'c'),
        Method::GetBlockByNumber => (20, 'g', 'B'),
        Method::GetBlockByHash => (18, 'g', 'B'),
        Method::SendRawTransaction => (22, 's', 'd'),
        Method::GetTransactionReceipt => (25, 'g', 'T'),
        Method::GetTransactionByHash => (24, 'g', 'T'),
        Method::GetTransactionByBlockHashAndIndex => (37, 'g', 'T'),
        Method::GetLogs => (11, 'g', 'L'),
        Method::GetFilterChanges => (20, 'g', 'F'),
        Method::UninstallFilter => (19, 'u', 'n'),
        Method::NewFilter => (13, 'n', 'F'),
        Method::NewBlockFilter => (18, 'n', 'B'),
        Method::NewPendingTransactionFilter => (31, 'n', 'P'),
        Method::GetStorageAt => (16, 'g', 'S'),
        Method::Coinbase => (12, 'c', 'n'),
        Method::Syncing => (11, 's', 'c'),
        Method::Version => (11, 'v', 's'),
    }
}

/// Each wire name has the mark listed for it.
proof fn lemma_marks(method: Method)
    ensures
        mark(method.name_text()) == mark_of(method),
{
    lemma_wire_names(method);
    reveal_strlit("eth_getBalance");
    reveal_strlit("eth_getTransactionCount");
    reveal_strlit("eth_getBlockTransactionCountByHash");
    reveal_strlit("eth_getBlockTransactionCountByNumber");
    reveal_strlit("eth_getCode");
    reveal_strlit("eth_getClientVersion");
    reveal_strlit("eth_call");
    reveal_strlit("eth_estimateGas");
    reveal_strlit("eth_chainId");
    reveal_strlit("eth_gasPrice");
    reveal_strlit("eth_maxPriorityFeePerGas");
    reveal_strlit("eth_blockNumber");
    reveal_strlit("eth_getBlockByNumber");
    reveal_strlit("eth_getBlockByHash");
    reveal_strlit("eth_sendRawTransaction");
    reveal_strlit("eth_getTransactionReceipt");
    reveal_strlit("eth_getTransactionByHash");
    reveal_strlit("eth_getTransactionByBlockHashAndIndex");
    reveal_strlit("eth_getLogs");
    reveal_strlit("eth_getFilterChanges");
    reveal_strlit("eth_uninstallFilter");
    reveal_strlit("eth_newFilter");
    reveal_strlit("eth_newBlockFilter");
    reveal_strlit("eth_newPendingTransactionFilter");
    reveal_strlit("eth_getStorageAt");
    reveal_strlit("eth_coinbase");
    reveal_strlit("eth_syncing");
    reveal_strlit("net_version");
}

/// No two methods share a wire name: whichever tables the methods are put
/// in, merging them meets no name twice.
pub proof fn lemma_names_distinct(a: Method, b: Method)
    ensures
        a.name_text() == b.name_text() ==> a == b,
{
    lemma_marks(a);
    lemma_marks(b);
}

/// A method's wire name tells its namespace: names of different namespaces
/// start differently.
pub proof fn lemma_namespaces_apart(a: Method, b: Method)
    ensures
        a.namespace_of() != b.namespace_of() ==> a.name_text() != b.name_text(),
{
    lemma_names_distinct(a, b);
}

} // verus!
