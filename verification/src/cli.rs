//! The driver behind the two subcommands. Argument reading, file reading and
//! console I/O live outside the library; what stands here is every decision:
//! which subcommand acts and which is a silent no-op, what a query prints for
//! a hit, a miss and an unreadable file, and what a save appends to the store.

use vstd::prelude::*;
use vstd::string::StringExecFns;

use crate::fingerprint::digest_of;
use crate::fingerprint::fingerprint_of;
use crate::fingerprint::size_str_of;
use crate::store::FileRecord;
use crate::store::NewRecord;
use crate::store::Store;
use crate::store::StoreError;
use crate::timestamp::now_timestamp_text;
use crate::timestamp::timestamp_text_of;

verus! {

/// The text printed for a query hit: the line `Password:` and then the stored
/// password, each ending the line.
pub open spec fn password_output(pw: Seq<char>) -> Seq<char> {
    "Password:\n"@ + pw + "\n"@
}

/// The text printed for a query miss.
pub open spec fn no_record_output() -> Seq<char> {
    "No record for this file!\n"@
}

/// The text printed when the named file cannot be read or stat'd.
pub open spec fn cannot_get_output() -> Seq<char> {
    "Cannot get the information of the file!\n"@
}

/// The text a query prints, from the passwords of the matching records in
/// insertion order: the first match's password when there is one, the miss
/// line when there is none. Later matches are ignored: the first wins.
pub open spec fn query_output_of(passwords: Seq<Seq<char>>) -> Seq<char> {
    if passwords.len() == 0 {
        no_record_output()
    } else {
        password_output(passwords[0])
    }
}

/// The passwords of a record sequence, in the same order.
pub open spec fn passwords_of(recs: Seq<FileRecord>) -> Seq<Seq<char>> {
    recs.map_values(|rec: FileRecord| rec.password@)
}

/// Save then query, round trip: when the matches for a file's identity begin
/// with a record holding password `pw` — as they do once a save of that file
/// with `pw` is the earliest matching record — the query prints the password
/// block for `pw`, verbatim, trailing newline of the entered line included.
pub proof fn lemma_save_query_round_trip(passwords: Seq<Seq<char>>, pw: Seq<char>)
    requires
        passwords.len() > 0,
        passwords[0] == pw,
    ensures
        query_output_of(passwords) == password_output(pw),
{
}

/// First match wins: however many records match a file's identity, the query
/// prints the earliest one's password and ignores the rest.
pub proof fn lemma_first_match_wins(passwords: Seq<Seq<char>>)
    requires
        passwords.len() >= 1,
    ensures
        query_output_of(passwords) == password_output(passwords[0]),
{
}

/// Miss reporting: when no record matches, the query prints exactly the miss
/// line and nothing else.
pub proof fn lemma_miss_reports_no_record(passwords: Seq<Seq<char>>)
    requires
        passwords.len() == 0,
    ensures
        query_output_of(passwords) == no_record_output(),
{
}

/// Builds the text a query prints from the matching records, in insertion
/// order: the first match's password block, or the miss line.
pub fn query_output(records: &Vec<FileRecord>) -> (r: String)
    ensures
        r@ == query_output_of(passwords_of(records@)),
{
    if records.len() == 0 {
        let r = "No record for this file!\n".to_owned();
        proof {
            assert(r@ =~= query_output_of(passwords_of(records@)));
        }
        r
    } else {
        let mut r = "Password:\n".to_owned();
        r.append(records[0].password.as_str());
        r.append("\n");
        proof {
            assert(passwords_of(records@)[0] == records@[0].password@);
            assert(r@ =~= query_output_of(passwords_of(records@)));
        }
        r
    }
}

/// What reading the named file yielded: its full contents and its metadata
/// byte count, or nothing because it does not exist or cannot be read.
pub enum FileLoad {
    Available { contents: Vec<u8>, size: u64 },
    Unavailable,
}

/// The records a query for the given load's identity may see: each carries
/// exactly that identity, and they stand in insertion order.
pub open spec fn possible_matches(recs: Seq<FileRecord>, hash: Seq<char>, size: Seq<char>) -> bool {
    &&& forall|i: int| 0 <= i < recs.len() ==> (#[trigger] recs[i]).hash@ == hash && recs[i].size@ == size
    &&& forall|i: int, j: int| 0 <= i < j < recs.len() ==> (#[trigger] recs[i]).id < (#[trigger] recs[j]).id
}

/// One `query` invocation after the file was read: fingerprints the contents,
/// looks the identity up, and returns the text to print. An unreadable file
/// is reported with the fixed diagnostic and the store is not consulted; a
/// store failure is passed out as `ReadFailure`.
pub fn run_query(store: &Store, load: &FileLoad) -> (r: Result<String, StoreError>)
    ensures
        load is Unavailable ==> (r matches Ok(out) && out@ == cannot_get_output()),
        r matches Err(e) ==> e == StoreError::ReadFailure && load is Available,
        (load matches FileLoad::Available { contents, size } ==> (r matches Ok(out)
            ==> exists|recs: Seq<FileRecord>|
            #![auto]
            possible_matches(recs, digest_of(contents@), size_str_of(size as nat))
                && out@ == query_output_of(passwords_of(recs)))),
{
    match load {
        FileLoad::Unavailable => {
            let out = "Cannot get the information of the file!\n".to_owned();
            Ok(out)
        },
        FileLoad::Available { contents, size } => {
            let fp = fingerprint_of(contents, *size);
            match store.find_by_identity(fp.digest.as_str(), fp.size.as_str()) {
                Ok(recs) => {
                    let out = query_output(&recs);
                    proof {
                        assert(possible_matches(
                            recs@,
                            digest_of(contents@),
                            size_str_of(*size as nat),
                        ));
                    }
                    Ok(out)
                },
                Err(_) => Err(StoreError::ReadFailure),
            }
        },
    }
}

/// Builds the record a save appends for a file with the given contents and
/// byte count: the file's identity pair, the password byte-for-byte as
/// entered — no trimming, any trailing newline kept — and the current
/// moment's text.
pub fn build_record(contents: &Vec<u8>, size: u64, password: &str) -> (r: NewRecord)
    ensures
        r.hash@ == digest_of(contents@),
        r.size@ == size_str_of(size as nat),
        r.password@ == password@,
        exists|secs: int, nanos: nat|
            nanos < 1_000_000_000 && r.time_created@ == timestamp_text_of(secs, nanos),
{
    let fp = fingerprint_of(contents, size);
    NewRecord {
        hash: fp.digest,
        size: fp.size,
        password: password.to_owned(),
        time_created: now_timestamp_text(),
    }
}

/// What one `save` invocation did: appended the returned record under the
/// assigned id, or read no file and owes the user the returned message.
#[derive(Debug, PartialEq, Eq)]
pub enum SaveOutcome {
    Saved { id: i64, record: NewRecord },
    CannotRead { message: String },
}

/// One `save` invocation after the file was read and the password line was
/// taken from the prompt: builds the record by `build_record` — the file's
/// identity, the password verbatim, the current moment — appends it, and
/// returns it with the assigned id. Saving prints nothing on success; an
/// unreadable file is reported with the fixed diagnostic without touching
/// the store. A store failure is passed out as `WriteFailure`.
pub fn run_save(store: &Store, load: &FileLoad, password: &str) -> (r: Result<
    SaveOutcome,
    StoreError,
>)
    ensures
        load is Unavailable ==> (r matches Ok(o) && o matches SaveOutcome::CannotRead { message }
            && message@ == cannot_get_output()),
        (load matches FileLoad::Available { contents, size } ==> (r matches Ok(o)
            ==> o matches SaveOutcome::Saved { id, record }
                && record.hash@ == digest_of(contents@)
                && record.size@ == size_str_of(size as nat)
                && record.password@ == password@
                && (exists|secs: int, nanos: nat|
                    nanos < 1_000_000_000 && record.time_created@ == timestamp_text_of(secs, nanos)))),
        r matches Err(e) ==> e == StoreError::WriteFailure && load is Available,
{
    match load {
        FileLoad::Unavailable => {
            let message = "Cannot get the information of the file!\n".to_owned();
            Ok(SaveOutcome::CannotRead { message })
        },
        FileLoad::Available { contents, size } => {
            let record = build_record(contents, *size, password);
            match store.insert(&record) {
                Ok(id) => Ok(SaveOutcome::Saved { id, record }),
                Err(_) => Err(StoreError::WriteFailure),
            }
        },
    }
}

/// One parsed command line: which subcommand was named, and its `--file`
/// value when one was given.
pub enum Invocation {
    Query { file: Option<String> },
    Save { file: Option<String> },
    NoCommand,
}

/// What an invocation does: act on a file, or nothing at all.
pub enum Plan {
    DoQuery { file: String },
    DoSave { file: String },
    Silent,
}

/// The state machine of an invocation: a recognized subcommand with `--file`
/// acts on that file; a subcommand without `--file`, like no subcommand at
/// all, is a silent no-op.
pub fn plan_of(inv: Invocation) -> (r: Plan)
    ensures
        (match inv {
            Invocation::Query { file: Some(f) } => (r matches Plan::DoQuery { file } && file == f),
            Invocation::Save { file: Some(f) } => (r matches Plan::DoSave { file } && file == f),
            _ => r is Silent,
        }),
{
    match inv {
        Invocation::Query { file: Some(f) } => Plan::DoQuery { file: f },
        Invocation::Save { file: Some(f) } => Plan::DoSave { file: f },
        _ => Plan::Silent,
    }
}

} // verus!
