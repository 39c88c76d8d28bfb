use vstd::prelude::*;
use vstd::bytes::{
    lemma_auto_spec_u64_to_from_le_bytes, spec_u64_from_le_bytes, spec_u64_to_le_bytes,
    u64_to_le_bytes,
};
use vstd::seq_lib::lemma_flatten_concat;
use vstd::slice::slice_to_vec;
use vstd::string::StrSliceExecFns;
use vstd::utf8::{
    encode_utf8, encode_utf8_decode_utf8, is_ascii_chars, is_ascii_chars_encode_utf8,
};

use crate::keys::Pubkey;

verus! {

/// Most bytes that one seed of a derived address may take.
pub const MAX_SEED_LEN: usize = 32;

/// A derivation takes fewer seeds than this.
pub const MAX_SEEDS: usize = 16;

/// What a record is, said by its kind and by that which tells it from the
/// others of its kind. The address under which the record is stored is
/// derived from this and from nothing else.
#[derive(Clone, Debug, PartialEq, Eq)]
pub enum RecordId {
    /// The one global configuration.
    GlobalState,
    /// The account of `user`.
    UserProfile { user: Pubkey },
    /// The container named `container_id`.
    Container { container_id: String },
    /// The deposit that `user` made when `sequence` deposits had been made in all.
    Deposit { user: Pubkey, sequence: u64 },
    /// The redemption that `user` made when they had spent `sequence` tokens.
    Redemption { user: Pubkey, sequence: u64 },
    /// The collection of the container stored under `container`, made when
    /// it had received `sequence` deposits.
    Collection { container: Pubkey, sequence: u64 },
}

/// What a [`RecordId`] stands for.
pub enum RecordIdView {
    GlobalState,
    UserProfile { user: Seq<u8> },
    Container { container_id: Seq<char> },
    Deposit { user: Seq<u8>, sequence: nat },
    Redemption { user: Seq<u8>, sequence: nat },
    Collection { container: Seq<u8>, sequence: nat },
}

impl View for RecordId {
    type V = RecordIdView;

    open spec fn view(&self) -> RecordIdView {
        match *self {
            RecordId::GlobalState => RecordIdView::GlobalState,
            RecordId::UserProfile { user } => RecordIdView::UserProfile { user: user@ },
            RecordId::Container { container_id } => RecordIdView::Container {
                container_id: container_id@,
            },
            RecordId::Deposit { user, sequence } => RecordIdView::Deposit {
                user: user@,
                sequence: sequence as nat,
            },
            RecordId::Redemption { user, sequence } => RecordIdView::Redemption {
                user: user@,
                sequence: sequence as nat,
            },
            RecordId::Collection { container, sequence } => RecordIdView::Collection {
                container: container@,
                sequence: sequence as nat,
            },
        }
    }
}

impl RecordIdView {
    /// Keys take 32 bytes and sequence numbers fit in 64 bits, as they do in
    /// every [`RecordId`].
    pub open spec fn well_formed(self) -> bool {
        match self {
            RecordIdView::GlobalState => true,
            RecordIdView::UserProfile { user } => user.len() == 32,
            RecordIdView::Container { container_id } => true,
            RecordIdView::Deposit { user, sequence } => user.len() == 32 && sequence <= u64::MAX,
            RecordIdView::Redemption { user, sequence } => user.len() == 32 && sequence
                <= u64::MAX,
            RecordIdView::Collection { container, sequence } => container.len() == 32
                && sequence <= u64::MAX,
        }
    }

    /// The word that names the kind of the record.
    pub open spec fn tag(self) -> Seq<char> {
        match self {
            RecordIdView::GlobalState => "global_state"@,
            RecordIdView::UserProfile { .. } => "user_profile"@,
            RecordIdView::Container { .. } => "container"@,
            RecordIdView::Deposit { .. } => "deposit"@,
            RecordIdView::Redemption { .. } => "redemption"@,
            RecordIdView::Collection { .. } => "collection"@,
        }
    }

    /// The bytes that tell the record from the others of its kind: a key, a
    /// name, or a key followed by a sequence number, low byte first.
    pub open spec fn discriminator(self) -> Seq<Seq<u8>> {
        match self {
            RecordIdView::GlobalState => seq![],
            RecordIdView::UserProfile { user } => seq![user],
            RecordIdView::Container { container_id } => seq![encode_utf8(container_id)],
            RecordIdView::Deposit { user, sequence } => seq![
                user,
                spec_u64_to_le_bytes(sequence as u64),
            ],
            RecordIdView::Redemption { user, sequence } => seq![
                user,
                spec_u64_to_le_bytes(sequence as u64),
            ],
            RecordIdView::Collection { container, sequence } => seq![
                container,
                spec_u64_to_le_bytes(sequence as u64),
            ],
        }
    }

    /// The seeds from which the record's address is derived: the tag, then
    /// what tells the record from the others of its kind.
    pub open spec fn seeds(self) -> Seq<Seq<u8>> {
        seq![encode_utf8(self.tag())] + self.discriminator()
    }

    /// The bytes that the derivation hashes for the record before the bump
    /// seed and the program id: the seeds, one after another.
    pub open spec fn hashed_bytes(self) -> Seq<u8> {
        self.seeds().flatten()
    }

    /// What follows the tag in the hashed bytes.
    spec fn body(self) -> Seq<u8> {
        match self {
            RecordIdView::GlobalState => seq![],
            RecordIdView::UserProfile { user } => user,
            RecordIdView::Container { container_id } => encode_utf8(container_id),
            RecordIdView::Deposit { user, sequence } => user + spec_u64_to_le_bytes(
                sequence as u64,
            ),
            RecordIdView::Redemption { user, sequence } => user + spec_u64_to_le_bytes(
                sequence as u64,
            ),
            RecordIdView::Collection { container, sequence } => container + spec_u64_to_le_bytes(
                sequence as u64,
            ),
        }
    }

    /// The tag is plain ASCII, one byte to the letter.
    proof fn lemma_tag_bytes(self)
        ensures
            encode_utf8(self.tag()).len() == self.tag().len(),
            forall|i: int|
                0 <= i < self.tag().len() ==> self.tag()[i] as u8 == #[trigger] encode_utf8(
                    self.tag(),
                )[i],
            self.tag().len() >= 7,
            self is GlobalState ==> self.tag()[0] == 'g',
            self is UserProfile ==> self.tag()[0] == 'u',
            self is Container ==> self.tag()[0] == 'c' && self.tag()[2] == 'n',
            self is Deposit ==> self.tag()[0] == 'd',
            self is Redemption ==> self.tag()[0] == 'r',
            self is Collection ==> self.tag()[0] == 'c' && self.tag()[2] == 'l',
    {
        reveal_strlit("global_state");
        reveal_strlit("user_profile");
        reveal_strlit("container");
        reveal_strlit("deposit");
        reveal_strlit("redemption");
        reveal_strlit("collection");
        assert(is_ascii_chars(self.tag()));
        is_ascii_chars_encode_utf8(self.tag());
    }

    /// The hashed bytes are the tag followed by the body.
    proof fn lemma_hashed_bytes(self)
        ensures
            self.hashed_bytes() == encode_utf8(self.tag()) + self.body(),
    {
        let tag = encode_utf8(self.tag());
        let rest = self.discriminator();
        lemma_flatten_concat(seq![tag], rest);
        seq![tag].lemma_flatten_singleton();
        if rest.len() == 0 {
            assert(rest.flatten() =~= self.body());
        } else if rest.len() == 1 {
            rest.lemma_flatten_singleton();
        } else {
            let head = seq![rest[0]];
            let last = seq![rest[1]];
            assert(rest =~= head + last);
            lemma_flatten_concat(head, last);
            head.lemma_flatten_singleton();
            last.lemma_flatten_singleton();
        }
        assert(self.hashed_bytes() =~= tag + self.body());
    }

    /// No two records are hashed from the same bytes: where the seeds of two
    /// ids, laid end to end, are the same bytes, the ids are the same. So two
    /// records share an address only where the hash itself collides.
    pub proof fn lemma_hashed_bytes_tell_ids_apart(self, other: RecordIdView)
        requires
            self.well_formed(),
            other.well_formed(),
            self.hashed_bytes() == other.hashed_bytes(),
        ensures
            self == other,
    {
        self.lemma_tag_bytes();
        other.lemma_tag_bytes();
        self.lemma_hashed_bytes();
        other.lemma_hashed_bytes();
        let tag = encode_utf8(self.tag());
        let other_tag = encode_utf8(other.tag());
        let bytes = self.hashed_bytes();
        assert(bytes[0] == tag[0] && bytes[2] == tag[2]);
        assert(bytes[0] == other_tag[0] && bytes[2] == other_tag[2]);
        assert(tag[0] == self.tag()[0] as u8 && tag[2] == self.tag()[2] as u8);
        assert(other_tag[0] == other.tag()[0] as u8 && other_tag[2] == other.tag()[2] as u8);
        assert(self.tag() == other.tag());
        assert(self.body() =~= bytes.subrange(tag.len() as int, bytes.len() as int));
        assert(other.body() =~= bytes.subrange(tag.len() as int, bytes.len() as int));
        lemma_auto_spec_u64_to_from_le_bytes();
        match (self, other) {
            (
                RecordIdView::Container { container_id },
                RecordIdView::Container { container_id: other_id },
            ) => {
                encode_utf8_decode_utf8(container_id);
                encode_utf8_decode_utf8(other_id);
            },
            (
                RecordIdView::Deposit { user, sequence },
                RecordIdView::Deposit { user: other_user, sequence: other_sequence },
            ) => {
                Self::lemma_key_and_sequence(user, sequence, other_user, other_sequence);
            },
            (
                RecordIdView::Redemption { user, sequence },
                RecordIdView::Redemption { user: other_user, sequence: other_sequence },
            ) => {
                Self::lemma_key_and_sequence(user, sequence, other_user, other_sequence);
            },
            (
                RecordIdView::Collection { container, sequence },
                RecordIdView::Collection { container: other_container, sequence: other_sequence },
            ) => {
                Self::lemma_key_and_sequence(container, sequence, other_container, other_sequence);
            },
            _ => {},
        }
    }

    /// The derivation takes the seeds of every id but that of a container
    /// whose name is longer than a seed may be: it is for this that a
    /// container id is held to 32 bytes.
    pub proof fn lemma_seeds_within_bounds(self)
        requires
            self.well_formed(),
        ensures
            seeds_out_of_bounds(self.seeds()) <==> (self matches RecordIdView::Container {
                container_id,
            } && encode_utf8(container_id).len() > MAX_SEED_LEN),
    {
        self.lemma_tag_bytes();
        lemma_auto_spec_u64_to_from_le_bytes();
        reveal_strlit("global_state");
        reveal_strlit("user_profile");
        reveal_strlit("container");
        reveal_strlit("deposit");
        reveal_strlit("redemption");
        reveal_strlit("collection");
        let seeds = self.seeds();
        assert(seeds[0] == encode_utf8(self.tag()));
        assert(seeds.len() == 1 + self.discriminator().len());
        assert(forall|i: int| 1 <= i < seeds.len() ==> seeds[i] == self.discriminator()[i - 1]);
        match self {
            RecordIdView::Container { container_id } => {
                assert(seeds[1] == encode_utf8(container_id));
            },
            _ => {},
        }
    }

    /// A key followed by a sequence number gives back both.
    proof fn lemma_key_and_sequence(key: Seq<u8>, sequence: nat, other_key: Seq<u8>, other_sequence: nat)
        requires
            key.len() == 32,
            other_key.len() == 32,
            sequence <= u64::MAX,
            other_sequence <= u64::MAX,
            key + spec_u64_to_le_bytes(sequence as u64) == other_key + spec_u64_to_le_bytes(
                other_sequence as u64,
            ),
        ensures
            key == other_key,
            sequence == other_sequence,
    {
        lemma_auto_spec_u64_to_from_le_bytes();
        let low = spec_u64_to_le_bytes(sequence as u64);
        let other_low = spec_u64_to_le_bytes(other_sequence as u64);
        let bytes = key + low;
        assert(key =~= bytes.subrange(0, 32));
        assert(other_key =~= bytes.subrange(0, 32));
        assert(low =~= bytes.subrange(32, 40));
        assert(other_low =~= bytes.subrange(32, 40));
        assert(spec_u64_from_le_bytes(low) == sequence as u64);
        assert(spec_u64_from_le_bytes(other_low) == other_sequence as u64);
    }
}

/// The address and the bump seed that the derivation gives for these seeds
/// under this program, if it gives any.
pub uninterp spec fn program_address(seeds: Seq<Seq<u8>>, program_id: Seq<u8>) -> Option<
    (Seq<u8>, u8),
>;

/// A derived address and its bump seed, the key as its bytes.
pub open spec fn derived_view(derived: Option<(Pubkey, u8)>) -> Option<(Seq<u8>, u8)> {
    match derived {
        Some((key, bump)) => Some((key@, bump)),
        None => None,
    }
}

/// Some seed is longer than a seed may be, or the seeds are too many.
pub open spec fn seeds_out_of_bounds(seeds: Seq<Seq<u8>>) -> bool {
    seeds.len() >= MAX_SEEDS || exists|i: int|
        0 <= i < seeds.len() && (#[trigger] seeds[i]).len() > MAX_SEED_LEN
}

/// Calls `Pubkey::try_find_program_address` of `anchor_lang`. Taken on
/// trust: that what it returns depends on the seeds and the program id
/// alone, and that it returns nothing for 16 seeds or more and for a seed of
/// more than 32 bytes.
#[verifier::external_body]
fn find_program_address(seeds: &Vec<Vec<u8>>, program_id: &Pubkey) -> (r: Option<(Pubkey, u8)>)
    ensures
        derived_view(r) == program_address(seeds.deep_view(), program_id@),
        seeds_out_of_bounds(seeds.deep_view()) ==> r is None,
{
    let parts: Vec<&[u8]> = seeds.iter().map(|seed| seed.as_slice()).collect();
    let program = anchor_lang::prelude::Pubkey::new_from_array(program_id.bytes);
    match anchor_lang::prelude::Pubkey::try_find_program_address(&parts, &program) {
        Some((key, bump)) => Some((Pubkey { bytes: key.to_bytes() }, bump)),
        None => None,
    }
}

impl RecordId {
    /// The seeds from which the record's address is derived.
    pub fn seeds(&self) -> (seeds: Vec<Vec<u8>>)
        ensures
            seeds.deep_view() == self@.seeds(),
    {
        let mut seeds: Vec<Vec<u8>> = Vec::new();
        match self {
            RecordId::GlobalState => {
                seeds.push("global_state".as_bytes_vec());
            },
            RecordId::UserProfile { user } => {
                seeds.push("user_profile".as_bytes_vec());
                seeds.push(slice_to_vec(user.bytes.as_slice()));
            },
            RecordId::Container { container_id } => {
                seeds.push("container".as_bytes_vec());
                seeds.push(container_id.as_str().as_bytes_vec());
            },
            RecordId::Deposit { user, sequence } => {
                seeds.push("deposit".as_bytes_vec());
                seeds.push(slice_to_vec(user.bytes.as_slice()));
                seeds.push(u64_to_le_bytes(*sequence));
            },
            RecordId::Redemption { user, sequence } => {
                seeds.push("redemption".as_bytes_vec());
                seeds.push(slice_to_vec(user.bytes.as_slice()));
                seeds.push(u64_to_le_bytes(*sequence));
            },
            RecordId::Collection { container, sequence } => {
                seeds.push("collection".as_bytes_vec());
                seeds.push(slice_to_vec(container.bytes.as_slice()));
                seeds.push(u64_to_le_bytes(*sequence));
            },
        }
        assert(seeds.deep_view() =~~= self@.seeds());
        seeds
    }

    /// The address under which the record is stored by the program
    /// `program_id`, with the bump seed of the address; `None` where the
    /// derivation gives none, as for a container id of more than 32 bytes.
    pub fn address(&self, program_id: &Pubkey) -> (r: Option<(Pubkey, u8)>)
        ensures
            derived_view(r) == program_address(self@.seeds(), program_id@),
            seeds_out_of_bounds(self@.seeds()) ==> r is None,
            (self@ matches RecordIdView::Container { container_id } && encode_utf8(
                container_id,
            ).len() > MAX_SEED_LEN) ==> r is None,
    {
        proof {
            self@.lemma_seeds_within_bounds();
        }
        let seeds = self.seeds();
        find_program_address(&seeds, program_id)
    }
}

} // verus!
