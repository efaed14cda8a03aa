//! How the device's pair is exported into the store.

use crate::catacomb_session::{
    backup_catacomb_pair, backup_catacomb_pair_with_reserved_metadata,
    backup_catacomb_pair_with_transaction, backup_catacomb_pair_with_transaction_and_metadata,
    reserve_transaction_with_metadata, BackupStep, CatacombBackup, CatacombSessionError,
    ExportFault, PendingExport, PendingFinish, PendingSize, PendingStorage, ReserveMetadataStep,
    StorageWork, TransactionPreparation,
};
use crate::catacomb_store::CatacombStoreError;
use vstd::prelude::*;

verus! {

/// Every export begins with the user's size; metadata that does not decode, or a
/// transaction that was not begun, ends it at once.
pub proof fn law_exports_begin_with_the_users_size<'a, T, P>(
    user_id: u32,
    metadata: &'a [u8],
    decodes: bool,
    begun: Result<(), CatacombStoreError>,
    plain: BackupStep<'a, T, P>,
    labeled: BackupStep<'a, T, P>,
    reserved: BackupStep<'a, T, P>,
    whole: BackupStep<'a, T, P>,
)
    requires
        call_ensures(backup_catacomb_pair_with_transaction::<T, P>, (user_id,), plain),
        call_ensures(
            backup_catacomb_pair_with_transaction_and_metadata::<T, P>,
            (user_id, metadata, decodes),
            labeled,
        ),
        call_ensures(backup_catacomb_pair_with_reserved_metadata::<T, P>, (user_id,), reserved),
        call_ensures(backup_catacomb_pair::<T, P>, (begun, user_id), whole),
    ensures
        plain == BackupStep::<T, P>::Size(
            PendingSize {
                user_id,
                preparation: TransactionPreparation::Reserve { metadata: None },
                user_size: None,
            },
        ),
        labeled is Size <==> decodes,
        labeled matches BackupStep::Size(pending) ==> pending == (PendingSize {
            user_id,
            preparation: TransactionPreparation::Reserve { metadata: Some(metadata) },
            user_size: None,
        }),
        !decodes ==> labeled == BackupStep::<T, P>::End(
            Err(CatacombSessionError::Store(CatacombStoreError::InvalidMetadata)),
        ),
        reserved == BackupStep::<T, P>::Size(
            PendingSize {
                user_id,
                preparation: TransactionPreparation::AlreadyReserved,
                user_size: None,
            },
        ),
        begun is Ok ==> whole == plain,
        begun matches Err(error) ==> whole == BackupStep::<T, P>::End(
            Err(CatacombSessionError::Store(error)),
        ),
{
}

/// The whole of an export. The user is asked for its size, exported with it, written and
/// finished before the master is asked for, each addressed by its own number, the master
/// by -1; the reservation and the metadata come before the first export, and the
/// promotion comes last. What is reported are the two sizes.
pub proof fn law_exports_finish_the_user_before_the_master<'a, T, P>(
    user_id: u32,
    preparation: TransactionPreparation<'a>,
    first: PendingSize<'a>,
    first_to: i64,
    user_size: usize,
    second: BackupStep<'a, T, P>,
    reserve: PendingStorage<'a>,
    third: BackupStep<'a, T, P>,
    labeling: PendingStorage<'a>,
    fourth: BackupStep<'a, T, P>,
    export_user: PendingExport<'a>,
    export_user_to: i64,
    export_user_size: usize,
    user: Vec<u8>,
    write_user: PendingStorage<'a>,
    finish_user: PendingFinish<'a>,
    finish_user_to: i64,
    master_query: PendingSize<'a>,
    master_query_to: i64,
    master_size: usize,
    export_master: PendingExport<'a>,
    export_master_to: i64,
    export_master_size: usize,
    master: Vec<u8>,
    write_master: PendingStorage<'a>,
    finish_master: PendingFinish<'a>,
    finish_master_to: i64,
    promote: PendingStorage<'a>,
    end: BackupStep<'a, T, P>,
    write_user_step: BackupStep<'a, T, P>,
    finish_user_step: BackupStep<'a, T, P>,
    master_query_step: BackupStep<'a, T, P>,
    export_master_step: BackupStep<'a, T, P>,
    write_master_step: BackupStep<'a, T, P>,
    finish_master_step: BackupStep<'a, T, P>,
    promote_step: BackupStep<'a, T, P>,
)
    requires
        first == (PendingSize { user_id, preparation, user_size: None }),
        call_ensures(PendingSize::<'a>::addressee, (&first,), first_to),
        call_ensures(
            PendingSize::<'a>::answered::<T, P>,
            (first, Ok::<usize, ExportFault<T, P>>(user_size)),
            second,
        ),
        second matches BackupStep::Store(pending) ==> pending == reserve && call_ensures(
            PendingStorage::<'a>::stored::<T, P>,
            (reserve, Ok::<(), CatacombStoreError>(())),
            third,
        ),
        second is Store ==> (third matches BackupStep::Store(pending) ==> pending == labeling
            && call_ensures(
            PendingStorage::<'a>::stored::<T, P>,
            (labeling, Ok::<(), CatacombStoreError>(())),
            fourth,
        )),
        second matches BackupStep::Export(pending) ==> pending == export_user,
        second is Store ==> (third matches BackupStep::Export(pending) ==> pending == export_user),
        second is Store && third is Store ==> (fourth matches BackupStep::Export(pending)
            ==> pending == export_user),
        call_ensures(PendingExport::<'a>::addressee, (&export_user,), export_user_to),
        call_ensures(PendingExport::<'a>::size, (&export_user,), export_user_size),
        call_ensures(
            PendingExport::<'a>::exported::<T, P>,
            (export_user, Ok::<Vec<u8>, ExportFault<T, P>>(user)),
            write_user_step,
        ),
        write_user_step is Store ==> write_user_step->Store_0 == write_user,
        call_ensures(
            PendingStorage::<'a>::stored::<T, P>,
            (write_user, Ok::<(), CatacombStoreError>(())),
            finish_user_step,
        ),
        finish_user_step is Finish ==> finish_user_step->Finish_0 == finish_user,
        call_ensures(PendingFinish::<'a>::addressee, (&finish_user,), finish_user_to),
        call_ensures(
            PendingFinish::<'a>::finished::<T, P>,
            (finish_user, Ok::<(), ExportFault<T, P>>(())),
            master_query_step,
        ),
        master_query_step is Size ==> master_query_step->Size_0 == master_query,
        call_ensures(PendingSize::<'a>::addressee, (&master_query,), master_query_to),
        call_ensures(
            PendingSize::<'a>::answered::<T, P>,
            (master_query, Ok::<usize, ExportFault<T, P>>(master_size)),
            export_master_step,
        ),
        export_master_step is Export ==> export_master_step->Export_0 == export_master,
        call_ensures(PendingExport::<'a>::addressee, (&export_master,), export_master_to),
        call_ensures(PendingExport::<'a>::size, (&export_master,), export_master_size),
        call_ensures(
            PendingExport::<'a>::exported::<T, P>,
            (export_master, Ok::<Vec<u8>, ExportFault<T, P>>(master)),
            write_master_step,
        ),
        write_master_step is Store ==> write_master_step->Store_0 == write_master,
        call_ensures(
            PendingStorage::<'a>::stored::<T, P>,
            (write_master, Ok::<(), CatacombStoreError>(())),
            finish_master_step,
        ),
        finish_master_step is Finish ==> finish_master_step->Finish_0 == finish_master,
        call_ensures(PendingFinish::<'a>::addressee, (&finish_master,), finish_master_to),
        call_ensures(
            PendingFinish::<'a>::finished::<T, P>,
            (finish_master, Ok::<(), ExportFault<T, P>>(())),
            promote_step,
        ),
        promote_step is Store ==> promote_step->Store_0 == promote,
        call_ensures(
            PendingStorage::<'a>::stored::<T, P>,
            (promote, Ok::<(), CatacombStoreError>(())),
            end,
        ),
    ensures
        write_user_step is Store,
        finish_user_step is Finish,
        master_query_step is Size,
        export_master_step is Export,
        write_master_step is Store,
        finish_master_step is Finish,
        promote_step is Store,
        first_to == user_id,
        preparation is Reserve <==> second is Store,
        preparation is AlreadyReserved <==> second is Export,
        second is Store ==> reserve.work is Reserve,
        second is Store ==> (third is Store <==> preparation->Reserve_metadata is Some),
        second is Store ==> (third is Export <==> preparation->Reserve_metadata is None),
        second is Store && third is Store ==> (
        labeling.work matches StorageWork::WriteMetadata { metadata, .. }
            && preparation->Reserve_metadata == Some(metadata)) && fourth is Export,
        export_user_to == user_id && export_user_size == user_size,
        write_user.work matches StorageWork::WriteUser { blob, .. } && blob@ == user@,
        finish_user_to == user_id,
        master_query_to == -1,
        export_master_to == -1 && export_master_size == master_size,
        write_master.work matches StorageWork::WriteMaster { blob, .. } && blob@ == master@,
        finish_master_to == -1,
        promote.work is Promote,
        end == BackupStep::<T, P>::End(Ok(CatacombBackup { user_size, master_size })),
{
}

/// Whether the step has ended with what this fault is reported as.
pub open spec fn ends_by_fault<'a, T, P>(r: BackupStep<'a, T, P>, fault: ExportFault<T, P>) -> bool {
    &&& r is End && r->End_0 is Err
    &&& fault matches ExportFault::Transport(error) ==> r->End_0->Err_0
        == CatacombSessionError::<T, P>::Transport(error)
    &&& fault matches ExportFault::Command(error) ==> r->End_0->Err_0
        == CatacombSessionError::<T, P>::Command(error)
    &&& fault matches ExportFault::Catacomb(error) ==> r->End_0->Err_0
        == CatacombSessionError::<T, P>::Catacomb(error)
}

/// A fault of the device or of the store ends an export wherever it happens.
pub proof fn law_faults_end_exports<'a, T, P>(
    fault: ExportFault<T, P>,
    error: CatacombStoreError,
    size: PendingSize<'a>,
    after_size: BackupStep<'a, T, P>,
    storage: PendingStorage<'a>,
    after_storage: BackupStep<'a, T, P>,
    export: PendingExport<'a>,
    after_export: BackupStep<'a, T, P>,
    finish: PendingFinish<'a>,
    after_finish: BackupStep<'a, T, P>,
)
    requires
        call_ensures(
            PendingSize::<'a>::answered::<T, P>,
            (size, Err::<usize, ExportFault<T, P>>(fault)),
            after_size,
        ),
        call_ensures(
            PendingStorage::<'a>::stored::<T, P>,
            (storage, Err::<(), CatacombStoreError>(error)),
            after_storage,
        ),
        call_ensures(
            PendingExport::<'a>::exported::<T, P>,
            (export, Err::<Vec<u8>, ExportFault<T, P>>(fault)),
            after_export,
        ),
        call_ensures(
            PendingFinish::<'a>::finished::<T, P>,
            (finish, Err::<(), ExportFault<T, P>>(fault)),
            after_finish,
        ),
    ensures
        ends_by_fault(after_size, fault),
        after_storage == BackupStep::<T, P>::End(Err(CatacombSessionError::Store(error))),
        ends_by_fault(after_export, fault),
        ends_by_fault(after_finish, fault),
{
}

/// A transaction is reserved with its metadata before anything is exported, where the
/// metadata decodes.
pub proof fn law_metadata_is_reserved_first<'a>(
    metadata: &'a [u8],
    decodes: bool,
    first: ReserveMetadataStep<'a>,
    reserved: Result<(), CatacombStoreError>,
    second: ReserveMetadataStep<'a>,
    written: Result<(), CatacombStoreError>,
    third: ReserveMetadataStep<'a>,
)
    requires
        call_ensures(reserve_transaction_with_metadata, (metadata, decodes), first),
        call_ensures(ReserveMetadataStep::<'a>::done, (first, reserved), second),
        call_ensures(ReserveMetadataStep::<'a>::done, (second, written), third),
    ensures
        first is Reserve <==> decodes,
        decodes ==> (first matches ReserveMetadataStep::Reserve { metadata: given } && given
            == metadata),
        !decodes ==> first == ReserveMetadataStep::End(Err(CatacombStoreError::InvalidMetadata))
            && second == first && third == first,
        decodes && reserved is Ok ==> (
        second matches ReserveMetadataStep::WriteMetadata { metadata: given } && given == metadata)
            && third == ReserveMetadataStep::End(written),
        decodes && reserved is Err ==> second == ReserveMetadataStep::End(reserved) && third
            == second,
{
}

} // verus!
