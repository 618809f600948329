use crate::viewing_key::ViewingKey;
use vstd::prelude::*;

verus! {

/// The data of one invocation that the host hands the contract: the block
/// height and time of the call and the caller's canonical identity bytes.
pub struct CallEnv {
    pub block_height: u64,
    pub block_time: u64,
    pub sender: Vec<u8>,
}

/// Abstract value of a [`CallEnv`].
#[verifier::ext_equal]
pub ghost struct CallEnvV {
    pub block_height: u64,
    pub block_time: u64,
    pub sender: Seq<u8>,
}

impl View for CallEnv {
    type V = CallEnvV;

    open spec fn view(&self) -> CallEnvV {
        CallEnvV {
            block_height: self.block_height,
            block_time: self.block_time,
            sender: self.sender@,
        }
    }
}

/// Initialization message.
pub struct InitMsg {
    /// Maximum size of a reminder message in bytes.
    pub max_size: i32,
    /// Host-supplied randomness hashed into the contract-wide seed.
    pub prng_seed: Vec<u8>,
}

/// Abstract value of an [`InitMsg`].
#[verifier::ext_equal]
pub ghost struct InitMsgV {
    pub max_size: i32,
    pub prng_seed: Seq<u8>,
}

impl View for InitMsg {
    type V = InitMsgV;

    open spec fn view(&self) -> InitMsgV {
        InitMsgV { max_size: self.max_size, prng_seed: self.prng_seed@ }
    }
}

/// A state-changing command.
pub enum HandleMsg {
    /// Records a new reminder for the sender.
    Record { reminder: String },
    /// Requests the current reminder for the sender.
    Read {},
    /// Derives and stores a fresh viewing key for the sender.
    GenerateViewingKey { entropy: String },
}

/// Abstract value of a [`HandleMsg`].
#[verifier::ext_equal]
pub ghost enum HandleMsgV {
    Record { reminder: Seq<char> },
    Read {},
    GenerateViewingKey { entropy: Seq<char> },
}

impl View for HandleMsg {
    type V = HandleMsgV;

    open spec fn view(&self) -> HandleMsgV {
        match self {
            HandleMsg::Record { reminder } => HandleMsgV::Record { reminder: reminder@ },
            HandleMsg::Read {} => HandleMsgV::Read {},
            HandleMsg::GenerateViewingKey { entropy } => HandleMsgV::GenerateViewingKey {
                entropy: entropy@,
            },
        }
    }
}

/// A read-only query.
pub enum QueryMsg {
    /// Gets basic statistics about the use of the contract.
    Stats {},
    /// Reads `address`'s reminder, authenticated by a presented viewing
    /// key rather than by the host's transaction identity.
    Read { address: Vec<u8>, key: String },
}

/// Abstract value of a [`QueryMsg`].
#[verifier::ext_equal]
pub ghost enum QueryMsgV {
    Stats {},
    Read { address: Seq<u8>, key: Seq<char> },
}

impl View for QueryMsg {
    type V = QueryMsgV;

    open spec fn view(&self) -> QueryMsgV {
        match self {
            QueryMsg::Stats {} => QueryMsgV::Stats {},
            QueryMsg::Read { address, key } => QueryMsgV::Read { address: address@, key: key@ },
        }
    }
}

/// Responses from state-changing commands.
#[derive(Debug)]
pub enum HandleAnswer {
    /// A status message saying whether the record succeeded.
    Record { status: String },
    /// A status message and the current reminder and its timestamp, if
    /// one exists.
    Read { status: String, reminder: Option<String>, timestamp: Option<u64> },
    /// The freshly derived viewing key.
    GenerateViewingKey { key: ViewingKey },
}

/// Abstract value of a [`HandleAnswer`].
#[verifier::ext_equal]
pub ghost enum HandleAnswerV {
    Record { status: Seq<char> },
    Read { status: Seq<char>, reminder: Option<Seq<char>>, timestamp: Option<u64> },
    GenerateViewingKey { key: Seq<char> },
}

impl View for HandleAnswer {
    type V = HandleAnswerV;

    open spec fn view(&self) -> HandleAnswerV {
        match self {
            HandleAnswer::Record { status } => HandleAnswerV::Record { status: status@ },
            HandleAnswer::Read { status, reminder, timestamp } => HandleAnswerV::Read {
                status: status@,
                reminder: reminder.deep_view(),
                timestamp: *timestamp,
            },
            HandleAnswer::GenerateViewingKey { key } => HandleAnswerV::GenerateViewingKey {
                key: key@,
            },
        }
    }
}

/// Responses from queries.
#[derive(Debug)]
pub enum QueryAnswer {
    /// Basic statistics about the use of the contract.
    Stats { reminder_count: u64 },
    /// A status message and the reminder read on behalf of an
    /// authenticated owner.
    Read { status: String, reminder: Option<String>, timestamp: Option<u64> },
}

/// Abstract value of a [`QueryAnswer`].
#[verifier::ext_equal]
pub ghost enum QueryAnswerV {
    Stats { reminder_count: u64 },
    Read { status: Seq<char>, reminder: Option<Seq<char>>, timestamp: Option<u64> },
}

impl View for QueryAnswer {
    type V = QueryAnswerV;

    open spec fn view(&self) -> QueryAnswerV {
        match self {
            QueryAnswer::Stats { reminder_count } => QueryAnswerV::Stats {
                reminder_count: *reminder_count,
            },
            QueryAnswer::Read { status, reminder, timestamp } => QueryAnswerV::Read {
                status: status@,
                reminder: reminder.deep_view(),
                timestamp: *timestamp,
            },
        }
    }
}

} // verus!
