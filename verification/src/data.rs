use vstd::prelude::*;

verus! {

/// One row of the leaderboard: a creator identifier and five reward
/// amounts. The amounts are fixed-precision decimal strings as emitted by
/// the upstream API; they are never converted to a numeric type, so no
/// precision is lost.
#[derive(Debug, Clone, PartialEq, Eq)]
pub struct LeaderboardEntry {
    pub creator: String,
    pub total_creator_reward: String,
    pub mainnet_reward: String,
    pub optimism_reward: String,
    pub base_reward: String,
    pub zora_reward: String,
}

/// A full response: the rows in server order (rank order), a record count,
/// and two aggregate fee totals as decimal strings.
#[derive(Debug, Clone, PartialEq, Eq)]
pub struct LeaderboardResponse {
    pub leaderboard_data: Vec<LeaderboardEntry>,
    pub records_count: i32,
    pub total_zora_fees: String,
    pub total_creator_fees: String,
}

/// Mathematical model of a leaderboard entry: each field as a character
/// sequence.
pub ghost struct EntryModel {
    pub creator: Seq<char>,
    pub total_creator_reward: Seq<char>,
    pub mainnet_reward: Seq<char>,
    pub optimism_reward: Seq<char>,
    pub base_reward: Seq<char>,
    pub zora_reward: Seq<char>,
}

/// Mathematical model of a response.
pub ghost struct ResponseModel {
    pub entries: Seq<EntryModel>,
    pub records_count: int,
    pub total_zora_fees: Seq<char>,
    pub total_creator_fees: Seq<char>,
}

impl View for LeaderboardEntry {
    type V = EntryModel;

    open spec fn view(&self) -> EntryModel {
        EntryModel {
            creator: self.creator@,
            total_creator_reward: self.total_creator_reward@,
            mainnet_reward: self.mainnet_reward@,
            optimism_reward: self.optimism_reward@,
            base_reward: self.base_reward@,
            zora_reward: self.zora_reward@,
        }
    }
}

impl View for LeaderboardResponse {
    type V = ResponseModel;

    open spec fn view(&self) -> ResponseModel {
        ResponseModel {
            entries: Seq::new(self.leaderboard_data@.len(), |i: int| self.leaderboard_data@[i]@),
            records_count: self.records_count as int,
            total_zora_fees: self.total_zora_fees@,
            total_creator_fees: self.total_creator_fees@,
        }
    }
}

/// The wire-format fields, used to report which field a decode failure is
/// about.
#[derive(Debug, Clone, Copy, PartialEq, Eq, Structural)]
pub enum FieldName {
    LeaderboardData,
    RecordsCount,
    TotalZoraFees,
    TotalCreatorFees,
    Creator,
    TotalCreatorReward,
    MainnetReward,
    OptimismReward,
    BaseReward,
    ZoraReward,
}

/// Why a response body was rejected: not valid JSON at all, a top level
/// that is not an object, a required field that is absent (under its exact,
/// case-sensitive name), or a field present with the wrong type.
#[derive(Debug, Clone, Copy, PartialEq, Eq, Structural)]
pub enum DecodeError {
    Syntax,
    NotAnObject,
    Missing(FieldName),
    WrongType(FieldName),
}

/// One fetch's failure: the connection failed or timed out, the body did
/// not decode, or the concurrent unit running the fetch could not be
/// joined.
#[derive(Debug, Clone, PartialEq, Eq)]
pub enum FetchError {
    Network(String),
    Decode(DecodeError),
    Task(String),
}

} // verus!
