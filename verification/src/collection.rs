use vstd::prelude::*;

use crate::address::{RecordId, RecordIdView};
use crate::errors::ErrorCode;
use crate::keys::Pubkey;
use crate::state::{CollectionRecord, CollectionRecordView, SmartContainer, SmartContainerView};

verus! {

/// The records that a collection reads and writes.
#[derive(Clone, Debug, PartialEq, Eq)]
pub struct CollectContainer {
    /// The container to empty.
    pub container: SmartContainer,
    /// The key under which that container is stored.
    pub container_key: Pubkey,
    /// The place of the collection's record: `None` while no record is there.
    pub collection_record: Option<CollectionRecord>,
    /// Who empties the container.
    pub collector: Pubkey,
    /// Bump seed of the collection record's derived address.
    pub bump: u8,
}

/// What a [`CollectContainer`] stands for.
pub struct CollectContainerView {
    pub container: SmartContainerView,
    pub container_key: Seq<u8>,
    pub collection_record: Option<CollectionRecordView>,
    pub collector: Seq<u8>,
    pub bump: nat,
}

impl View for CollectContainer {
    type V = CollectContainerView;

    open spec fn view(&self) -> CollectContainerView {
        CollectContainerView {
            container: self.container@,
            container_key: self.container_key@,
            collection_record: match self.collection_record {
                Some(record) => Some(record@),
                None => None,
            },
            collector: self.collector@,
            bump: self.bump as nat,
        }
    }
}

impl CollectContainerView {
    /// The id of the certificate that the collection writes, and so the
    /// place for which `collection_record` stands: that of the collection
    /// made when the container has received the deposits it has now.
    pub open spec fn record_id(self) -> RecordIdView {
        RecordIdView::Collection {
            container: self.container_key,
            sequence: self.container.total_deposits,
        }
    }

    /// Why the collection is refused, if it is. The conditions are tried in
    /// this order and the first that fails decides.
    pub open spec fn rejection(self) -> Option<ErrorCode> {
        if !self.container.is_active {
            Some(ErrorCode::ContainerInactive)
        } else if self.container.current_weight == 0 {
            Some(ErrorCode::ContainerEmpty)
        } else if self.collection_record is Some {
            Some(ErrorCode::RecordAlreadyExists)
        } else {
            None
        }
    }

    /// The certificate that an accepted collection writes.
    pub open spec fn record(self, now: int) -> CollectionRecordView {
        CollectionRecordView {
            container: self.container_key,
            collector: self.collector,
            weight_collected: self.container.current_weight,
            timestamp: now,
            verified: true,
            bump: self.bump,
        }
    }

    /// The records after an accepted collection.
    pub open spec fn applied(self, now: int) -> CollectContainerView {
        CollectContainerView {
            container: SmartContainerView {
                current_weight: 0,
                last_collection: now,
                ..self.container
            },
            collection_record: Some(self.record(now)),
            ..self
        }
    }

    /// The records after the operation: as they were when it is refused,
    /// else with the collection applied.
    pub open spec fn after(self, now: int) -> CollectContainerView {
        if self.rejection() is Some {
            self
        } else {
            self.applied(now)
        }
    }
}

impl CollectContainer {
    /// The id of the certificate that the collection writes.
    pub fn record_id(&self) -> (id: RecordId)
        ensures
            id@ == self@.record_id(),
    {
        RecordId::Collection {
            container: self.container_key,
            sequence: self.container.total_deposits,
        }
    }
}

/// Empties the container at `now` and certifies what was taken away.
///
/// The collection is refused, in this order, when the container is out of
/// service, when it holds nothing, and when a record is already in the
/// collection's place; no record is then changed. Otherwise the certificate
/// is written with the weight that the container held, the container's
/// weight is set to 0 and its last collection to `now`. The container's
/// count of deposits stays as it was.
pub fn collect_container(ctx: &mut CollectContainer, now: i64) -> (r: Result<(), ErrorCode>)
    ensures
        match old(ctx)@.rejection() {
            Some(error) => r == Err::<(), ErrorCode>(error) && *final(ctx) == *old(ctx),
            None => r is Ok,
        },
        final(ctx)@ == old(ctx)@.after(now as int),
{
    if !ctx.container.is_active {
        return Err(ErrorCode::ContainerInactive);
    }
    if ctx.container.current_weight == 0 {
        return Err(ErrorCode::ContainerEmpty);
    }
    if ctx.collection_record.is_some() {
        return Err(ErrorCode::RecordAlreadyExists);
    }
    ctx.collection_record = Some(
        CollectionRecord {
            container: ctx.container_key,
            collector: ctx.collector,
            weight_collected: ctx.container.current_weight,
            timestamp: now,
            verified: true,
            bump: ctx.bump,
        },
    );
    ctx.container.last_collection = now;
    ctx.container.current_weight = 0;
    Ok(())
}

} // verus!
