use vstd::prelude::*;
use crate::data::{
    DecodeError, EntryModel, FieldName, LeaderboardEntry, LeaderboardResponse, ResponseModel,
};
use crate::json::{lookup, name_is, Json};
use vstd::string::StringExecFns;

verus! {

// ---------------------------------------------------------------------------
// Decoding, specified.
//
// A response body is an object with exactly these required fields, under
// their exact wire names (several are mixed-case; matching is
// case-sensitive):
//   "leaderboard_data"  : array of entry objects
//   "recordsCount"      : integer (must fit in i32)
//   "totalZoraFees"     : string
//   "totalCreatorFees"  : string
// and an entry object requires the string fields
//   "creator", "totalCreatorReward", "mainnetReward", "optimismReward",
//   "baseReward", "zoraReward".
// Unknown extra fields are ignored. The fields are checked in the orders
// above, and the first failure is the decode's error.
// ---------------------------------------------------------------------------

/// The required string field `name`, as checked in an object's field list.
pub open spec fn field_str(
    fields: Seq<(String, Json)>,
    name: Seq<char>,
    f: FieldName,
) -> Result<Seq<char>, DecodeError> {
    match lookup(fields, name) {
        Option::None => Err(DecodeError::Missing(f)),
        Option::Some(v) => {
            if v is Str {
                Ok(v->Str_0@)
            } else {
                Err(DecodeError::WrongType(f))
            }
        },
    }
}

/// What decoding one leaderboard entry yields.
pub open spec fn decode_entry_spec(j: Json) -> Result<EntryModel, DecodeError> {
    if !(j is Obj) {
        Err(DecodeError::NotAnObject)
    } else {
        let fs = j->Obj_0@;
        let c = field_str(fs, "creator"@, FieldName::Creator);
        let t = field_str(fs, "totalCreatorReward"@, FieldName::TotalCreatorReward);
        let m = field_str(fs, "mainnetReward"@, FieldName::MainnetReward);
        let o = field_str(fs, "optimismReward"@, FieldName::OptimismReward);
        let b = field_str(fs, "baseReward"@, FieldName::BaseReward);
        let z = field_str(fs, "zoraReward"@, FieldName::ZoraReward);
        if c is Err {
            Err(c->Err_0)
        } else if t is Err {
            Err(t->Err_0)
        } else if m is Err {
            Err(m->Err_0)
        } else if o is Err {
            Err(o->Err_0)
        } else if b is Err {
            Err(b->Err_0)
        } else if z is Err {
            Err(z->Err_0)
        } else {
            Ok(
                EntryModel {
                    creator: c->Ok_0,
                    total_creator_reward: t->Ok_0,
                    mainnet_reward: m->Ok_0,
                    optimism_reward: o->Ok_0,
                    base_reward: b->Ok_0,
                    zora_reward: z->Ok_0,
                },
            )
        }
    }
}

/// What decoding a sequence of entries yields: the entry models in order,
/// or the first entry's failure.
pub open spec fn entries_spec(items: Seq<Json>) -> Result<Seq<EntryModel>, DecodeError>
    decreases items.len(),
{
    if items.len() == 0 {
        Ok(Seq::<EntryModel>::empty())
    } else {
        let h = decode_entry_spec(items[0]);
        let t = entries_spec(items.skip(1));
        if h is Err {
            Err(h->Err_0)
        } else if t is Err {
            Err(t->Err_0)
        } else {
            Ok(seq![h->Ok_0] + t->Ok_0)
        }
    }
}

/// The required `leaderboard_data` field: an array whose elements all
/// decode as entries.
pub open spec fn field_entries(fields: Seq<(String, Json)>) -> Result<Seq<EntryModel>, DecodeError> {
    match lookup(fields, "leaderboard_data"@) {
        Option::None => Err(DecodeError::Missing(FieldName::LeaderboardData)),
        Option::Some(v) => {
            if v is Arr {
                entries_spec(v->Arr_0@)
            } else {
                Err(DecodeError::WrongType(FieldName::LeaderboardData))
            }
        },
    }
}

/// The required `recordsCount` field: an integer that fits in `i32`. An
/// integer outside that range does not fit the schema's count type and is
/// reported as a wrong type.
pub open spec fn field_count(fields: Seq<(String, Json)>) -> Result<int, DecodeError> {
    match lookup(fields, "recordsCount"@) {
        Option::None => Err(DecodeError::Missing(FieldName::RecordsCount)),
        Option::Some(v) => {
            if v is Int && -2147483648 <= v->Int_0 <= 2147483647 {
                Ok(v->Int_0 as int)
            } else {
                Err(DecodeError::WrongType(FieldName::RecordsCount))
            }
        },
    }
}

/// What decoding a full response body (already parsed as a JSON document)
/// yields.
pub open spec fn decode_response_spec(j: Json) -> Result<ResponseModel, DecodeError> {
    if !(j is Obj) {
        Err(DecodeError::NotAnObject)
    } else {
        let fs = j->Obj_0@;
        let data = field_entries(fs);
        let count = field_count(fs);
        let zf = field_str(fs, "totalZoraFees"@, FieldName::TotalZoraFees);
        let cf = field_str(fs, "totalCreatorFees"@, FieldName::TotalCreatorFees);
        if data is Err {
            Err(data->Err_0)
        } else if count is Err {
            Err(count->Err_0)
        } else if zf is Err {
            Err(zf->Err_0)
        } else if cf is Err {
            Err(cf->Err_0)
        } else {
            Ok(
                ResponseModel {
                    entries: data->Ok_0,
                    records_count: count->Ok_0,
                    total_zora_fees: zf->Ok_0,
                    total_creator_fees: cf->Ok_0,
                },
            )
        }
    }
}

/// A decode result, seen at the model level.
pub open spec fn entry_result_model(r: Result<LeaderboardEntry, DecodeError>) -> Result<
    EntryModel,
    DecodeError,
> {
    match r {
        Ok(v) => Ok(v@),
        Err(e) => Err(e),
    }
}

/// A decode result, seen at the model level.
pub open spec fn response_result_model(r: Result<LeaderboardResponse, DecodeError>) -> Result<
    ResponseModel,
    DecodeError,
> {
    match r {
        Ok(v) => Ok(v@),
        Err(e) => Err(e),
    }
}

// ---------------------------------------------------------------------------
// The wire names are pairwise distinct. The decoders branch on exact name
// comparisons, so these facts are what keeps one field's binding from
// disturbing another's.
// ---------------------------------------------------------------------------

/// The four response-level wire names differ pairwise.
pub proof fn lemma_response_names_distinct()
    ensures
        "leaderboard_data"@ != "recordsCount"@,
        "leaderboard_data"@ != "totalZoraFees"@,
        "leaderboard_data"@ != "totalCreatorFees"@,
        "recordsCount"@ != "totalZoraFees"@,
        "recordsCount"@ != "totalCreatorFees"@,
        "totalZoraFees"@ != "totalCreatorFees"@,
{
    reveal_strlit("leaderboard_data");
    reveal_strlit("recordsCount");
    reveal_strlit("totalZoraFees");
    reveal_strlit("totalCreatorFees");
    assert("leaderboard_data"@.len() == 16);
    assert("recordsCount"@.len() == 12);
    assert("totalZoraFees"@.len() == 13);
    assert("totalCreatorFees"@.len() == 16);
    assert("leaderboard_data"@[0] != "totalCreatorFees"@[0]);
}

/// The six entry-level wire names differ pairwise.
pub proof fn lemma_entry_names_distinct()
    ensures
        "creator"@ != "totalCreatorReward"@,
        "creator"@ != "mainnetReward"@,
        "creator"@ != "optimismReward"@,
        "creator"@ != "baseReward"@,
        "creator"@ != "zoraReward"@,
        "totalCreatorReward"@ != "mainnetReward"@,
        "totalCreatorReward"@ != "optimismReward"@,
        "totalCreatorReward"@ != "baseReward"@,
        "totalCreatorReward"@ != "zoraReward"@,
        "mainnetReward"@ != "optimismReward"@,
        "mainnetReward"@ != "baseReward"@,
        "mainnetReward"@ != "zoraReward"@,
        "optimismReward"@ != "baseReward"@,
        "optimismReward"@ != "zoraReward"@,
        "baseReward"@ != "zoraReward"@,
{
    reveal_strlit("creator");
    reveal_strlit("totalCreatorReward");
    reveal_strlit("mainnetReward");
    reveal_strlit("optimismReward");
    reveal_strlit("baseReward");
    reveal_strlit("zoraReward");
    assert("creator"@.len() == 7);
    assert("totalCreatorReward"@.len() == 18);
    assert("mainnetReward"@.len() == 13);
    assert("optimismReward"@.len() == 14);
    assert("baseReward"@.len() == 10);
    assert("zoraReward"@.len() == 10);
    assert("baseReward"@[0] != "zoraReward"@[0]);
}

/// Looking a name up skips any prefix of bindings whose keys all differ
/// from it.
pub proof fn lemma_lookup_skip(fields: Seq<(String, Json)>, name: Seq<char>, k: int)
    requires
        0 <= k <= fields.len(),
        forall|j: int| 0 <= j < k ==> #[trigger] fields[j].0@ != name,
    ensures
        lookup(fields, name) == lookup(fields.skip(k), name),
    decreases k,
{
    if k == 0 {
        assert(fields.skip(0) =~= fields);
    } else {
        assert(fields[0].0@ != name);
        assert forall|j: int| 0 <= j < k - 1 implies #[trigger] fields.skip(1)[j].0@ != name by {
            assert(fields.skip(1)[j] == fields[j + 1]);
        }
        lemma_lookup_skip(fields.skip(1), name, k - 1);
        assert(fields.skip(1).skip(k - 1) =~= fields.skip(k));
    }
}

// ---------------------------------------------------------------------------
// Decoding, executed.
// ---------------------------------------------------------------------------

/// A borrowed binding slot, seen at the value level.
pub open spec fn slot_model(o: Option<&Json>) -> Option<Json> {
    match o {
        Option::Some(v) => Option::Some(*v),
        Option::None => Option::None,
    }
}

/// Decodes one leaderboard entry from a JSON document.
pub fn decode_entry(j: &Json) -> (r: Result<LeaderboardEntry, DecodeError>)
    ensures
        entry_result_model(r) == decode_entry_spec(*j),
{
    match j {
        Json::Obj(fields) => {
            let mut creator: Option<&Json> = None;
            let mut total_creator_reward: Option<&Json> = None;
            let mut mainnet_reward: Option<&Json> = None;
            let mut optimism_reward: Option<&Json> = None;
            let mut base_reward: Option<&Json> = None;
            let mut zora_reward: Option<&Json> = None;
            let mut i: usize = fields.len();
            while i > 0
                invariant
                    i <= fields@.len(),
                    slot_model(creator) == lookup(fields@.skip(i as int), "creator"@),
                    slot_model(total_creator_reward) == lookup(
                        fields@.skip(i as int),
                        "totalCreatorReward"@,
                    ),
                    slot_model(mainnet_reward) == lookup(fields@.skip(i as int), "mainnetReward"@),
                    slot_model(optimism_reward) == lookup(
                        fields@.skip(i as int),
                        "optimismReward"@,
                    ),
                    slot_model(base_reward) == lookup(fields@.skip(i as int), "baseReward"@),
                    slot_model(zora_reward) == lookup(fields@.skip(i as int), "zoraReward"@),
                decreases i,
            {
                i = i - 1;
                proof {
                    lemma_entry_names_distinct();
                    assert(fields@.skip(i as int)[0] == fields@[i as int]);
                    assert(fields@.skip(i as int).skip(1) =~= fields@.skip(i as int + 1));
                }
                let pair = &fields[i];
                if name_is(&pair.0, "creator") {
                    creator = Some(&pair.1);
                } else if name_is(&pair.0, "totalCreatorReward") {
                    total_creator_reward = Some(&pair.1);
                } else if name_is(&pair.0, "mainnetReward") {
                    mainnet_reward = Some(&pair.1);
                } else if name_is(&pair.0, "optimismReward") {
                    optimism_reward = Some(&pair.1);
                } else if name_is(&pair.0, "baseReward") {
                    base_reward = Some(&pair.1);
                } else if name_is(&pair.0, "zoraReward") {
                    zora_reward = Some(&pair.1);
                }
            }
            proof {
                assert(fields@.skip(0) =~= fields@);
            }
            let creator_s: String = match creator {
                Some(v) => match v {
                    Json::Str(s) => s.clone(),
                    _ => { return Err(DecodeError::WrongType(FieldName::Creator)); },
                },
                None => { return Err(DecodeError::Missing(FieldName::Creator)); },
            };
            let total_creator_reward_s: String = match total_creator_reward {
                Some(v) => match v {
                    Json::Str(s) => s.clone(),
                    _ => { return Err(DecodeError::WrongType(FieldName::TotalCreatorReward)); },
                },
                None => { return Err(DecodeError::Missing(FieldName::TotalCreatorReward)); },
            };
            let mainnet_reward_s: String = match mainnet_reward {
                Some(v) => match v {
                    Json::Str(s) => s.clone(),
                    _ => { return Err(DecodeError::WrongType(FieldName::MainnetReward)); },
                },
                None => { return Err(DecodeError::Missing(FieldName::MainnetReward)); },
            };
            let optimism_reward_s: String = match optimism_reward {
                Some(v) => match v {
                    Json::Str(s) => s.clone(),
                    _ => { return Err(DecodeError::WrongType(FieldName::OptimismReward)); },
                },
                None => { return Err(DecodeError::Missing(FieldName::OptimismReward)); },
            };
            let base_reward_s: String = match base_reward {
                Some(v) => match v {
                    Json::Str(s) => s.clone(),
                    _ => { return Err(DecodeError::WrongType(FieldName::BaseReward)); },
                },
                None => { return Err(DecodeError::Missing(FieldName::BaseReward)); },
            };
            let zora_reward_s: String = match zora_reward {
                Some(v) => match v {
                    Json::Str(s) => s.clone(),
                    _ => { return Err(DecodeError::WrongType(FieldName::ZoraReward)); },
                },
                None => { return Err(DecodeError::Missing(FieldName::ZoraReward)); },
            };
            Ok(
                LeaderboardEntry {
                    creator: creator_s,
                    total_creator_reward: total_creator_reward_s,
                    mainnet_reward: mainnet_reward_s,
                    optimism_reward: optimism_reward_s,
                    base_reward: base_reward_s,
                    zora_reward: zora_reward_s,
                },
            )
        },
        _ => Err(DecodeError::NotAnObject),
    }
}

/// A sequence of entries, seen at the model level.
pub open spec fn entry_models(v: Seq<LeaderboardEntry>) -> Seq<EntryModel> {
    Seq::new(v.len(), |i: int| v[i]@)
}

/// A decoded entry vector, seen at the model level.
pub open spec fn entries_result_model(r: Result<Vec<LeaderboardEntry>, DecodeError>) -> Result<
    Seq<EntryModel>,
    DecodeError,
> {
    match r {
        Ok(v) => Ok(entry_models(v@)),
        Err(e) => Err(e),
    }
}

/// Entry models already decoded, put in front of the rest of a decode.
pub open spec fn prepend(
    pre: Seq<EntryModel>,
    rest: Result<Seq<EntryModel>, DecodeError>,
) -> Result<Seq<EntryModel>, DecodeError> {
    match rest {
        Ok(t) => Ok(pre + t),
        Err(e) => Err(e),
    }
}

/// Decodes every element of a JSON array as a leaderboard entry, in order,
/// stopping at the first element that fails.
pub fn decode_entries(items: &Vec<Json>) -> (r: Result<Vec<LeaderboardEntry>, DecodeError>)
    ensures
        entries_result_model(r) == entries_spec(items@),
{
    let mut out: Vec<LeaderboardEntry> = Vec::new();
    let mut i: usize = 0;
    proof {
        assert(items@.skip(0) =~= items@);
        if entries_spec(items@) is Ok {
            assert(Seq::<EntryModel>::empty() + entries_spec(items@)->Ok_0 =~= entries_spec(
                items@,
            )->Ok_0);
        }
        assert(entry_models(out@) =~= Seq::<EntryModel>::empty());
    }
    while i < items.len()
        invariant
            i <= items@.len(),
            out@.len() == i,
            prepend(entry_models(out@), entries_spec(items@.skip(i as int))) == entries_spec(
                items@,
            ),
        decreases items@.len() - i,
    {
        proof {
            assert(items@.skip(i as int)[0] == items@[i as int]);
            assert(items@.skip(i as int).skip(1) =~= items@.skip(i as int + 1));
        }
        let ghost pre = entry_models(out@);
        let ghost rest = entries_spec(items@.skip(i as int));
        match decode_entry(&items[i]) {
            Ok(entry) => {
                out.push(entry);
                i = i + 1;
                proof {
                    let rest2 = entries_spec(items@.skip(i as int));
                    assert(entry_models(out@) =~= pre.push(entry@));
                    if rest2 is Ok {
                        assert(pre + (seq![entry@] + rest2->Ok_0) =~= pre.push(entry@)
                            + rest2->Ok_0);
                    }
                }
            },
            Err(e) => {
                proof {
                    assert(rest is Err && rest->Err_0 == e);
                }
                return Err(e);
            },
        }
    }
    proof {
        assert(entries_spec(items@.skip(items@.len() as int)) == Ok::<
            Seq<EntryModel>,
            DecodeError,
        >(Seq::<EntryModel>::empty()));
        assert(entry_models(out@) + Seq::<EntryModel>::empty() =~= entry_models(out@));
    }
    Ok(out)
}

/// Decodes a full response body, already parsed as a JSON document.
pub fn decode_response(j: &Json) -> (r: Result<LeaderboardResponse, DecodeError>)
    ensures
        response_result_model(r) == decode_response_spec(*j),
{
    match j {
        Json::Obj(fields) => {
            let mut data: Option<&Json> = None;
            let mut count: Option<&Json> = None;
            let mut zora_fees: Option<&Json> = None;
            let mut creator_fees: Option<&Json> = None;
            let mut i: usize = fields.len();
            while i > 0
                invariant
                    i <= fields@.len(),
                    slot_model(data) == lookup(fields@.skip(i as int), "leaderboard_data"@),
                    slot_model(count) == lookup(fields@.skip(i as int), "recordsCount"@),
                    slot_model(zora_fees) == lookup(fields@.skip(i as int), "totalZoraFees"@),
                    slot_model(creator_fees) == lookup(
                        fields@.skip(i as int),
                        "totalCreatorFees"@,
                    ),
                decreases i,
            {
                i = i - 1;
                proof {
                    lemma_response_names_distinct();
                    assert(fields@.skip(i as int)[0] == fields@[i as int]);
                    assert(fields@.skip(i as int).skip(1) =~= fields@.skip(i as int + 1));
                }
                let pair = &fields[i];
                if name_is(&pair.0, "leaderboard_data") {
                    data = Some(&pair.1);
                } else if name_is(&pair.0, "recordsCount") {
                    count = Some(&pair.1);
                } else if name_is(&pair.0, "totalZoraFees") {
                    zora_fees = Some(&pair.1);
                } else if name_is(&pair.0, "totalCreatorFees") {
                    creator_fees = Some(&pair.1);
                }
            }
            proof {
                assert(fields@.skip(0) =~= fields@);
            }
            let items: &Vec<Json> = match data {
                Some(v) => match v {
                    Json::Arr(a) => a,
                    _ => { return Err(DecodeError::WrongType(FieldName::LeaderboardData)); },
                },
                None => { return Err(DecodeError::Missing(FieldName::LeaderboardData)); },
            };
            let entries: Vec<LeaderboardEntry> = match decode_entries(items) {
                Ok(es) => es,
                Err(e) => { return Err(e); },
            };
            let n: i64 = match count {
                Some(v) => match v {
                    Json::Int(x) => *x,
                    _ => { return Err(DecodeError::WrongType(FieldName::RecordsCount)); },
                },
                None => { return Err(DecodeError::Missing(FieldName::RecordsCount)); },
            };
            if n < -2147483648 || n > 2147483647 {
                return Err(DecodeError::WrongType(FieldName::RecordsCount));
            }
            let zora_fees_s: String = match zora_fees {
                Some(v) => match v {
                    Json::Str(s) => s.clone(),
                    _ => { return Err(DecodeError::WrongType(FieldName::TotalZoraFees)); },
                },
                None => { return Err(DecodeError::Missing(FieldName::TotalZoraFees)); },
            };
            let creator_fees_s: String = match creator_fees {
                Some(v) => match v {
                    Json::Str(s) => s.clone(),
                    _ => { return Err(DecodeError::WrongType(FieldName::TotalCreatorFees)); },
                },
                None => { return Err(DecodeError::Missing(FieldName::TotalCreatorFees)); },
            };
            let resp = LeaderboardResponse {
                leaderboard_data: entries,
                records_count: n as i32,
                total_zora_fees: zora_fees_s,
                total_creator_fees: creator_fees_s,
            };
            proof {
                assert(resp@.entries =~= entry_models(resp.leaderboard_data@));
            }
            Ok(resp)
        },
        _ => Err(DecodeError::NotAnObject),
    }
}

// ---------------------------------------------------------------------------
// Encoding.
//
// An encoding is pinned completely: exactly the required fields, under
// their exact wire names, in a fixed order, with the field values given by
// the model. Decoding ignores unknown fields and field order, so the
// decode specification alone would not pin the encoder down; this
// predicate does.
// ---------------------------------------------------------------------------

/// `j` is the document that encodes the entry model `m`.
pub open spec fn encodes_entry(j: Json, m: EntryModel) -> bool {
    j is Obj && {
        let fs = j->Obj_0@;
        &&& fs.len() == 6
        &&& fs[0].0@ == "creator"@ && fs[0].1 is Str && fs[0].1->Str_0@ == m.creator
        &&& fs[1].0@ == "totalCreatorReward"@ && fs[1].1 is Str && fs[1].1->Str_0@
            == m.total_creator_reward
        &&& fs[2].0@ == "mainnetReward"@ && fs[2].1 is Str && fs[2].1->Str_0@ == m.mainnet_reward
        &&& fs[3].0@ == "optimismReward"@ && fs[3].1 is Str && fs[3].1->Str_0@
            == m.optimism_reward
        &&& fs[4].0@ == "baseReward"@ && fs[4].1 is Str && fs[4].1->Str_0@ == m.base_reward
        &&& fs[5].0@ == "zoraReward"@ && fs[5].1 is Str && fs[5].1->Str_0@ == m.zora_reward
    }
}

/// `j` is the document that encodes the response model `m`.
pub open spec fn encodes_response(j: Json, m: ResponseModel) -> bool {
    j is Obj && {
        let fs = j->Obj_0@;
        &&& fs.len() == 4
        &&& fs[0].0@ == "leaderboard_data"@ && fs[0].1 is Arr
        &&& fs[0].1->Arr_0@.len() == m.entries.len()
        &&& forall|k: int|
            0 <= k < m.entries.len() ==> encodes_entry(#[trigger] fs[0].1->Arr_0@[k], m.entries[k])
        &&& fs[1].0@ == "recordsCount"@ && fs[1].1 is Int && fs[1].1->Int_0 as int
            == m.records_count
        &&& -2147483648 <= m.records_count <= 2147483647
        &&& fs[2].0@ == "totalZoraFees"@ && fs[2].1 is Str && fs[2].1->Str_0@
            == m.total_zora_fees
        &&& fs[3].0@ == "totalCreatorFees"@ && fs[3].1 is Str && fs[3].1->Str_0@
            == m.total_creator_fees
    }
}

/// Encodes one entry as a JSON object with the six wire fields.
pub fn encode_entry(e: &LeaderboardEntry) -> (j: Json)
    ensures
        encodes_entry(j, e@),
{
    let mut fields: Vec<(String, Json)> = Vec::new();
    fields.push((String::from_str("creator"), Json::Str(e.creator.clone())));
    fields.push(
        (String::from_str("totalCreatorReward"), Json::Str(e.total_creator_reward.clone())),
    );
    fields.push((String::from_str("mainnetReward"), Json::Str(e.mainnet_reward.clone())));
    fields.push((String::from_str("optimismReward"), Json::Str(e.optimism_reward.clone())));
    fields.push((String::from_str("baseReward"), Json::Str(e.base_reward.clone())));
    fields.push((String::from_str("zoraReward"), Json::Str(e.zora_reward.clone())));
    Json::Obj(fields)
}

/// Encodes a response as a JSON object with the four wire fields, the
/// entries kept in order.
pub fn encode_response(r: &LeaderboardResponse) -> (j: Json)
    ensures
        encodes_response(j, r@),
{
    let mut items: Vec<Json> = Vec::new();
    let mut i: usize = 0;
    while i < r.leaderboard_data.len()
        invariant
            i <= r.leaderboard_data@.len(),
            items@.len() == i,
            forall|k: int|
                0 <= k < i ==> encodes_entry(#[trigger] items@[k], r.leaderboard_data@[k]@),
        decreases r.leaderboard_data@.len() - i,
    {
        let ej = encode_entry(&r.leaderboard_data[i]);
        items.push(ej);
        i = i + 1;
    }
    let mut fields: Vec<(String, Json)> = Vec::new();
    fields.push((String::from_str("leaderboard_data"), Json::Arr(items)));
    fields.push((String::from_str("recordsCount"), Json::Int(r.records_count as i64)));
    fields.push((String::from_str("totalZoraFees"), Json::Str(r.total_zora_fees.clone())));
    fields.push((String::from_str("totalCreatorFees"), Json::Str(r.total_creator_fees.clone())));
    Json::Obj(fields)
}

// ---------------------------------------------------------------------------
// Laws.
// ---------------------------------------------------------------------------

/// Decoding a document that encodes an entry model yields that model.
pub proof fn lemma_entry_round_trip(j: Json, m: EntryModel)
    requires
        encodes_entry(j, m),
    ensures
        decode_entry_spec(j) == Ok::<EntryModel, DecodeError>(m),
{
    lemma_entry_names_distinct();
    let fs = j->Obj_0@;
    assert(lookup(fs, "creator"@) == Some(fs[0].1));
    assert forall|x: int| 0 <= x < 1 implies #[trigger] fs[x].0@ != "totalCreatorReward"@ by {}
    lemma_lookup_skip(fs, "totalCreatorReward"@, 1);
    assert(fs.skip(1)[0] == fs[1]);
    assert forall|x: int| 0 <= x < 2 implies #[trigger] fs[x].0@ != "mainnetReward"@ by {}
    lemma_lookup_skip(fs, "mainnetReward"@, 2);
    assert(fs.skip(2)[0] == fs[2]);
    assert forall|x: int| 0 <= x < 3 implies #[trigger] fs[x].0@ != "optimismReward"@ by {}
    lemma_lookup_skip(fs, "optimismReward"@, 3);
    assert(fs.skip(3)[0] == fs[3]);
    assert forall|x: int| 0 <= x < 4 implies #[trigger] fs[x].0@ != "baseReward"@ by {}
    lemma_lookup_skip(fs, "baseReward"@, 4);
    assert(fs.skip(4)[0] == fs[4]);
    assert forall|x: int| 0 <= x < 5 implies #[trigger] fs[x].0@ != "zoraReward"@ by {}
    lemma_lookup_skip(fs, "zoraReward"@, 5);
    assert(fs.skip(5)[0] == fs[5]);
}

/// Decoding an array whose elements encode a sequence of entry models
/// yields exactly those models, in order.
pub proof fn lemma_entries_round_trip(items: Seq<Json>, ms: Seq<EntryModel>)
    requires
        items.len() == ms.len(),
        forall|k: int| 0 <= k < items.len() ==> encodes_entry(#[trigger] items[k], ms[k]),
    ensures
        entries_spec(items) == Ok::<Seq<EntryModel>, DecodeError>(ms),
    decreases items.len(),
{
    if items.len() == 0 {
        assert(ms =~= Seq::<EntryModel>::empty());
    } else {
        lemma_entry_round_trip(items[0], ms[0]);
        assert forall|k: int| 0 <= k < items.skip(1).len() implies encodes_entry(
            #[trigger] items.skip(1)[k],
            ms.skip(1)[k],
        ) by {
            assert(items.skip(1)[k] == items[k + 1]);
            assert(ms.skip(1)[k] == ms[k + 1]);
        }
        lemma_entries_round_trip(items.skip(1), ms.skip(1));
        assert(seq![ms[0]] + ms.skip(1) =~= ms);
    }
}

/// The round-trip law: decoding any document that encodes a response model
/// yields exactly that model. Together with `encode_response`'s contract,
/// encoding a response and decoding the result gives the response back,
/// field for field, with every decimal string unchanged.
pub proof fn lemma_response_round_trip(j: Json, m: ResponseModel)
    requires
        encodes_response(j, m),
    ensures
        decode_response_spec(j) == Ok::<ResponseModel, DecodeError>(m),
{
    lemma_response_names_distinct();
    let fs = j->Obj_0@;
    assert(lookup(fs, "leaderboard_data"@) == Some(fs[0].1));
    lemma_entries_round_trip(fs[0].1->Arr_0@, m.entries);
    assert forall|x: int| 0 <= x < 1 implies #[trigger] fs[x].0@ != "recordsCount"@ by {}
    lemma_lookup_skip(fs, "recordsCount"@, 1);
    assert(fs.skip(1)[0] == fs[1]);
    assert forall|x: int| 0 <= x < 2 implies #[trigger] fs[x].0@ != "totalZoraFees"@ by {}
    lemma_lookup_skip(fs, "totalZoraFees"@, 2);
    assert(fs.skip(2)[0] == fs[2]);
    assert forall|x: int| 0 <= x < 3 implies #[trigger] fs[x].0@ != "totalCreatorFees"@ by {}
    lemma_lookup_skip(fs, "totalCreatorFees"@, 3);
    assert(fs.skip(3)[0] == fs[3]);
}

/// The exact wire name of each required field.
pub open spec fn wire_name(f: FieldName) -> Seq<char> {
    match f {
        FieldName::LeaderboardData => "leaderboard_data"@,
        FieldName::RecordsCount => "recordsCount"@,
        FieldName::TotalZoraFees => "totalZoraFees"@,
        FieldName::TotalCreatorFees => "totalCreatorFees"@,
        FieldName::Creator => "creator"@,
        FieldName::TotalCreatorReward => "totalCreatorReward"@,
        FieldName::MainnetReward => "mainnetReward"@,
        FieldName::OptimismReward => "optimismReward"@,
        FieldName::BaseReward => "baseReward"@,
        FieldName::ZoraReward => "zoraReward"@,
    }
}

/// Name matching is case-sensitive: a decode can succeed only when every
/// required response field is bound under its exact wire name. A body in
/// which any one of them is spelled in a different casing binds none of
/// these names and is rejected.
pub proof fn lemma_decode_requires_exact_names(j: Json)
    requires
        decode_response_spec(j) is Ok,
    ensures
        j is Obj,
        lookup(j->Obj_0@, wire_name(FieldName::LeaderboardData)) is Some,
        lookup(j->Obj_0@, wire_name(FieldName::RecordsCount)) is Some,
        lookup(j->Obj_0@, wire_name(FieldName::TotalZoraFees)) is Some,
        lookup(j->Obj_0@, wire_name(FieldName::TotalCreatorFees)) is Some,
{
}

/// Name matching is case-sensitive inside an entry as well: an entry
/// decodes only when it binds all six field names exactly.
pub proof fn lemma_entry_requires_exact_names(j: Json)
    requires
        decode_entry_spec(j) is Ok,
    ensures
        j is Obj,
        lookup(j->Obj_0@, wire_name(FieldName::Creator)) is Some,
        lookup(j->Obj_0@, wire_name(FieldName::TotalCreatorReward)) is Some,
        lookup(j->Obj_0@, wire_name(FieldName::MainnetReward)) is Some,
        lookup(j->Obj_0@, wire_name(FieldName::OptimismReward)) is Some,
        lookup(j->Obj_0@, wire_name(FieldName::BaseReward)) is Some,
        lookup(j->Obj_0@, wire_name(FieldName::ZoraReward)) is Some,
{
}

/// A body whose entries decode but which omits `recordsCount` fails with
/// exactly that missing field, rather than defaulting the count.
pub proof fn lemma_missing_records_count(j: Json)
    requires
        j is Obj,
        field_entries(j->Obj_0@) is Ok,
        lookup(j->Obj_0@, wire_name(FieldName::RecordsCount)) is None,
    ensures
        decode_response_spec(j) == Err::<ResponseModel, DecodeError>(
            DecodeError::Missing(FieldName::RecordsCount),
        ),
{
}

} // verus!
