use vstd::prelude::*;
use vstd::utf8::encode_utf8;
use cosmwasm_std::{Order, StdError, Storage};

verus! {

/// A game as the storage keeps it: host, opponent, the host's wager, the
/// opponent's wager, and the codes of the host's move, of the opponent's
/// move and of the result.
pub type GameRecord = (
    String,
    String,
    Vec<(String, u128)>,
    Option<Vec<(String, u128)>>,
    u8,
    Option<u8>,
    Option<u8>,
);

/// A tally as the storage keeps it: host, opponent, and the three counters.
pub type BoardRecord = (String, String, Option<u128>, Option<u128>, Option<u128>);

/// A pair of players: the key of a stored game or tally.
pub type Pair = (Seq<char>, Seq<char>);

/// A stored game as a mathematical value.
pub type GameRecordView = (
    Seq<char>,
    Seq<char>,
    Seq<(Seq<char>, u128)>,
    Option<Seq<(Seq<char>, u128)>>,
    u8,
    Option<u8>,
    Option<u8>,
);

/// A stored tally as a mathematical value.
pub type BoardRecordView = (Seq<char>, Seq<char>, Option<u128>, Option<u128>, Option<u128>);

/// Read access to the contract's key-value storage: a shared borrow of
/// the `cosmwasm_std::Storage` that the chain hands to the contract. The
/// verifier sees nothing inside; what the storage holds is spoken of
/// through `games` and `leaderboards`, and what is claimed of its
/// methods stands on the functions of this file, unproved. A caller makes
/// one around its storage: `Store { storage }`.
#[verifier::external_body]
pub struct Store<'a> {
    pub storage: &'a dyn Storage,
}

/// Write access to the contract's key-value storage: the one mutable
/// borrow of the `cosmwasm_std::Storage` that the chain hands to the
/// contract. The verifier sees nothing inside. A caller makes one around
/// its storage: `StoreMut { storage }`.
#[verifier::external_body]
pub struct StoreMut<'a> {
    pub storage: &'a mut dyn Storage,
}

/// The games that the storage holds in its `cw_storage_plus::Map` named
/// `games`: for each pair of players under whose key a value lies that
/// can be read as a game record, that record.
pub uninterp spec fn games(store: Store) -> Map<Pair, GameRecordView>;

/// The tallies that the storage holds in its `cw_storage_plus::Map` named
/// `leaderboard`: for each pair of players under whose key a value lies
/// that can be read as a tally record, that record.
pub uninterp spec fn leaderboards(store: Store) -> Map<Pair, BoardRecordView>;

/// The storage behind a write access, as a reader sees it.
pub uninterp spec fn snapshot(store: StoreMut) -> Store;

/// A record of either map, as a mathematical value.
pub ghost enum RecordView {
    Game(GameRecordView),
    Board(BoardRecordView),
}

/// Whether `cw_storage_plus::Map::save` can serialize a record, which is
/// all that it needs to succeed. It depends on the record alone: not on
/// the key, and not on what the storage holds.
pub uninterp spec fn serializable(record: RecordView) -> bool;

/// The first names under which the storage's map `games` holds something
/// that cannot be read: a key whose second part is no text, or a value
/// that is no game record.
pub uninterp spec fn unreadable(store: Store) -> Set<Seq<char>>;

/// Whether a name can be the first part of a storage key: the key format
/// of `cw_storage_plus` writes the length of that part in two bytes, and
/// stops the program where it does not fit.
pub open spec fn fits_key(name: Seq<char>) -> bool {
    encode_utf8(name).len() <= 0xFFFF
}

/// Whether byte string `a` comes before byte string `b` in the order of
/// the storage's keys: byte by byte, a proper prefix first.
pub open spec fn bytes_before(a: Seq<u8>, b: Seq<u8>) -> bool
    decreases a.len(),
{
    if b.len() == 0 {
        false
    } else if a.len() == 0 {
        true
    } else if a[0] != b[0] {
        a[0] < b[0]
    } else {
        bytes_before(a.drop_first(), b.drop_first())
    }
}

/// Whether name `a` comes before name `b` in the order of the storage's
/// keys.
pub open spec fn name_before(a: Seq<char>, b: Seq<char>) -> bool {
    bytes_before(encode_utf8(a), encode_utf8(b))
}

/// Whether `found` lists what `records` holds under the pairs that begin
/// with `host`: each such pair once, with its record, by ascending second
/// name.
pub open spec fn lists_host(
    found: Seq<(Seq<char>, GameRecordView)>,
    records: Map<Pair, GameRecordView>,
    host: Seq<char>,
) -> bool {
    &&& forall|i: int| 0 <= i < found.len() ==> records.contains_pair((host, (#[trigger] found[i]).0), found[i].1)
    &&& forall|i: int, j: int| 0 <= i < j < found.len() ==> name_before((#[trigger] found[i]).0, (#[trigger] found[j]).0)
    &&& forall|opponent: Seq<char>| #[trigger] records.dom().contains((host, opponent)) ==> exists|i: int| 0 <= i < found.len() && (#[trigger] found[i]).0 == opponent
}

/// Borrows the storage of a write access for reading. No method of the
/// storage is called.
#[verifier::external_body]
pub(crate) fn reader<'b>(store: &'b StoreMut) -> (r: Store<'b>)
    ensures
        r == snapshot(*store),
{
    Store { storage: &*store.storage }
}

/// `cw_storage_plus::Map::load` on the map `games`: the record under
/// `(host, opponent)`, or an error where no value lies there or the value
/// cannot be read as a game record.
#[verifier::external_body]
pub(crate) fn load_game_record(store: &Store, host: &str, opponent: &str) -> (r: Result<GameRecord, StdError>)
    requires
        fits_key(host@),
    ensures
        r is Ok <==> games(*store).dom().contains((host@, opponent@)),
        r matches Ok(record) ==> record.deep_view() == games(*store)[(host@, opponent@)],
{
    cw_storage_plus::Map::<(&str, &str), GameRecord>::new("games").load(store.storage, (host, opponent))
}

/// `cw_storage_plus::Map::save` on the map `games`: writes `record` under
/// `(host, opponent)`, so that a later load reads it back. It fails where
/// the record cannot be serialized, and only there, before anything is
/// written. Other keys and the tallies are not touched, so nothing
/// becomes unreadable.
#[verifier::external_body]
pub(crate) fn save_game_record(store: &mut StoreMut, host: &str, opponent: &str, record: &GameRecord) -> (r: Result<(), StdError>)
    requires
        fits_key(host@),
    ensures
        r is Ok <==> serializable(RecordView::Game(record.deep_view())),
        unreadable(snapshot(*final(store))).subset_of(unreadable(snapshot(*old(store)))),
        r is Ok ==> games(snapshot(*final(store))) == games(snapshot(*old(store))).insert(
            (host@, opponent@),
            record.deep_view(),
        ),
        r is Err ==> games(snapshot(*final(store))) == games(snapshot(*old(store))),
        leaderboards(snapshot(*final(store))) == leaderboards(snapshot(*old(store))),
{
    cw_storage_plus::Map::<(&str, &str), GameRecord>::new("games").save(store.storage, (host, opponent), record)
}

/// `cw_storage_plus::Map::remove` on the map `games`: deletes what lies
/// under `(host, opponent)`. Other keys and the tallies are not touched,
/// so nothing becomes unreadable.
#[verifier::external_body]
pub(crate) fn remove_game_record(store: &mut StoreMut, host: &str, opponent: &str)
    requires
        fits_key(host@),
    ensures
        unreadable(snapshot(*final(store))).subset_of(unreadable(snapshot(*old(store)))),
        games(snapshot(*final(store))) == games(snapshot(*old(store))).remove((host@, opponent@)),
        leaderboards(snapshot(*final(store))) == leaderboards(snapshot(*old(store))),
{
    cw_storage_plus::Map::<(&str, &str), GameRecord>::new("games").remove(store.storage, (host, opponent))
}

/// `cw_storage_plus::Map::prefix` and `Prefix::range` on the map `games`,
/// ascending and unbounded, collected: the second names and records of
/// all pairs that begin with `host`, in the order of their keys. It
/// fails where a key or a value under `host` cannot be read, and only
/// there.
#[verifier::external_body]
pub(crate) fn range_game_records(store: &Store, host: &str) -> (r: Result<Vec<(String, GameRecord)>, StdError>)
    requires
        fits_key(host@),
    ensures
        r is Ok <==> !unreadable(*store).contains(host@),
        r matches Ok(found) ==> lists_host(found.deep_view(), games(*store), host@),
{
    cw_storage_plus::Map::<(&str, &str), GameRecord>::new("games")
        .prefix(host)
        .range(store.storage, None, None, Order::Ascending)
        .collect()
}

/// `cw_storage_plus::Map::load` on the map `leaderboard`: the record
/// under `(host, opponent)`, or an error where no value lies there or the
/// value cannot be read as a tally record.
#[verifier::external_body]
pub(crate) fn load_board_record(store: &Store, host: &str, opponent: &str) -> (r: Result<BoardRecord, StdError>)
    requires
        fits_key(host@),
    ensures
        r is Ok <==> leaderboards(*store).dom().contains((host@, opponent@)),
        r matches Ok(record) ==> record.deep_view() == leaderboards(*store)[(host@, opponent@)],
{
    cw_storage_plus::Map::<(&str, &str), BoardRecord>::new("leaderboard").load(store.storage, (host, opponent))
}

/// `cw_storage_plus::Map::save` on the map `leaderboard`: writes `record`
/// under `(host, opponent)`, so that a later load reads it back. It fails
/// where the record cannot be serialized, and only there, before anything
/// is written. Other keys and the map `games` are not touched.
#[verifier::external_body]
pub(crate) fn save_board_record(store: &mut StoreMut, host: &str, opponent: &str, record: &BoardRecord) -> (r: Result<(), StdError>)
    requires
        fits_key(host@),
    ensures
        r is Ok <==> serializable(RecordView::Board(record.deep_view())),
        unreadable(snapshot(*final(store))) == unreadable(snapshot(*old(store))),
        r is Ok ==> leaderboards(snapshot(*final(store))) == leaderboards(snapshot(*old(store))).insert(
            (host@, opponent@),
            record.deep_view(),
        ),
        r is Err ==> leaderboards(snapshot(*final(store))) == leaderboards(snapshot(*old(store))),
        games(snapshot(*final(store))) == games(snapshot(*old(store))),
{
    cw_storage_plus::Map::<(&str, &str), BoardRecord>::new("leaderboard").save(store.storage, (host, opponent), record)
}

} // verus!
