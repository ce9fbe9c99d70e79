//! The canonical text of a transaction batch: compact JSON, an array with one
//! object per transaction, its fields in the order `from`, `data`,
//! `signature`. Key bytes and signatures are arrays of numbers; the payload is
//! a string. The field values are written by `serde_json`; the framing around
//! them is written here.

use crate::error::ChainError;
use crate::transaction::{Transaction, TransactionView};
use vstd::prelude::*;

verus! {

/// The JSON text that `serde_json` writes for a byte vector, or `None` where
/// it reports an error.
pub uninterp spec fn json_of_bytes(bytes: Seq<u8>) -> Option<Seq<char>>;

/// The JSON text that `serde_json` writes for a string, or `None` where it
/// reports an error.
pub uninterp spec fn json_of_text(text: Seq<char>) -> Option<Seq<char>>;

/// `serde_json::Error`, the error of `serde_json::to_string`. It is carried
/// from the call to where it becomes `ChainError::Serialize`; nothing is read
/// from it.
#[verifier::external_type_specification]
#[verifier::external_body]
pub struct ExJsonError(serde_json::Error);

/// Calls `serde_json::to_string` at the type `Vec<u8>`. Trusted: whether it
/// succeeds, and the text it gives, depend on the bytes alone.
#[verifier::external_body]
fn bytes_to_json(bytes: &Vec<u8>) -> (r: Result<String, serde_json::Error>)
    ensures
        match r {
            Ok(text) => json_of_bytes(bytes@) == Some(text@),
            Err(_) => json_of_bytes(bytes@) is None,
        },
{
    serde_json::to_string(bytes)
}

/// Calls `serde_json::to_string` at the type `str`. Trusted: whether it
/// succeeds, and the text it gives, depend on the characters alone.
#[verifier::external_body]
fn text_to_json(text: &str) -> (r: Result<String, serde_json::Error>)
    ensures
        match r {
            Ok(json) => json_of_text(text@) == Some(json@),
            Err(_) => json_of_text(text@) is None,
        },
{
    serde_json::to_string(text)
}

/// What [`text_or_error`] makes of the outcome of a serialisation.
pub open spec fn text_or_error_of(outcome: Result<String, serde_json::Error>) -> Result<
    String,
    ChainError,
> {
    match outcome {
        Ok(text) => Ok(text),
        Err(_) => Err(ChainError::Serialize),
    }
}

/// One transaction's object, given the JSON of its three fields.
pub open spec fn transaction_object(
    from_json: Seq<char>,
    data_json: Seq<char>,
    signature_json: Seq<char>,
) -> Seq<char> {
    "{\"from\":"@ + from_json + ",\"data\":"@ + data_json + ",\"signature\":"@ + signature_json
        + "}"@
}

/// The items, separated by commas.
pub open spec fn comma_joined(items: Seq<Seq<char>>) -> Seq<char>
    decreases items.len(),
{
    if items.len() == 0 {
        Seq::empty()
    } else if items.len() == 1 {
        items[0]
    } else {
        comma_joined(items.drop_last()) + ","@ + items.last()
    }
}

/// The canonical text of one transaction, or `None` where a field has no
/// JSON form.
pub open spec fn encode_transaction(tx: TransactionView) -> Option<Seq<char>> {
    if json_of_bytes(tx.from) is Some && json_of_text(tx.data) is Some && json_of_bytes(
        tx.signature,
    ) is Some {
        Some(
            transaction_object(
                json_of_bytes(tx.from)->0,
                json_of_text(tx.data)->0,
                json_of_bytes(tx.signature)->0,
            ),
        )
    } else {
        None
    }
}

/// The canonical text of a batch, or `None` where some transaction has none.
pub open spec fn encode_transactions(txs: Seq<TransactionView>) -> Option<Seq<char>> {
    if forall|i: int| 0 <= i < txs.len() ==> (#[trigger] encode_transaction(txs[i])) is Some {
        Some(
            "["@ + comma_joined(Seq::new(txs.len(), |i: int| encode_transaction(txs[i])->0))
                + "]"@,
        )
    } else {
        None
    }
}

/// The values of a sequence of transactions.
pub open spec fn transaction_views(txs: Seq<Transaction>) -> Seq<TransactionView> {
    Seq::new(txs.len(), |i: int| txs[i]@)
}

/// The text of a serialisation, or `ChainError::Serialize` where it failed,
/// whatever the failure was.
pub fn text_or_error(outcome: Result<String, serde_json::Error>) -> (r: Result<String, ChainError>)
    ensures
        r == text_or_error_of(outcome),
{
    match outcome {
        Ok(text) => Ok(text),
        Err(_) => Err(ChainError::Serialize),
    }
}

/// Frames the JSON of a transaction's three fields as one object.
pub fn frame_transaction(from_json: &str, data_json: &str, signature_json: &str) -> (object:
    String)
    ensures
        object@ == transaction_object(from_json@, data_json@, signature_json@),
{
    let mut object = String::from_str("{\"from\":");
    object.append(from_json);
    object.append(",\"data\":");
    object.append(data_json);
    object.append(",\"signature\":");
    object.append(signature_json);
    object.append("}");
    object
}

/// The canonical text of one transaction.
pub fn transaction_to_json(tx: &Transaction) -> (r: Result<String, ChainError>)
    ensures
        match r {
            Ok(text) => encode_transaction(tx@) == Some(text@),
            Err(e) => e == ChainError::Serialize && encode_transaction(tx@) is None,
        },
{
    let from_json = match text_or_error(bytes_to_json(&tx.from)) {
        Ok(text) => text,
        Err(e) => {
            return Err(e);
        },
    };
    let data_json = match text_or_error(text_to_json(tx.data.as_str())) {
        Ok(text) => text,
        Err(e) => {
            return Err(e);
        },
    };
    let signature_json = match text_or_error(bytes_to_json(&tx.signature)) {
        Ok(text) => text,
        Err(e) => {
            return Err(e);
        },
    };
    Ok(frame_transaction(from_json.as_str(), data_json.as_str(), signature_json.as_str()))
}

/// The canonical text of a batch of transactions.
pub fn transactions_to_json(txs: &Vec<Transaction>) -> (r: Result<String, ChainError>)
    ensures
        match r {
            Ok(text) => encode_transactions(transaction_views(txs@)) == Some(text@),
            Err(e) => e == ChainError::Serialize && encode_transactions(transaction_views(txs@))
                is None,
        },
{
    let ghost views = transaction_views(txs@);
    let mut text = String::from_str("[");
    let mut i: usize = 0;
    while i < txs.len()
        invariant
            i <= txs.len(),
            views == transaction_views(txs@),
            forall|j: int| 0 <= j < i ==> (#[trigger] encode_transaction(views[j])) is Some,
            text@ == "["@ + comma_joined(
                Seq::new(i as nat, |j: int| encode_transaction(views[j])->0),
            ),
        decreases txs.len() - i,
    {
        let item = match transaction_to_json(&txs[i]) {
            Ok(item) => item,
            Err(e) => {
                return Err(e);
            },
        };
        let ghost before = Seq::new(i as nat, |j: int| encode_transaction(views[j])->0);
        let ghost after = Seq::new((i + 1) as nat, |j: int| encode_transaction(views[j])->0);
        assert(after.drop_last() =~= before);
        if i > 0 {
            text.append(",");
        }
        text.append(item.as_str());
        assert(text@ =~= "["@ + comma_joined(after));
        i = i + 1;
    }
    text.append("]");
    Ok(text)
}

} // verus!
