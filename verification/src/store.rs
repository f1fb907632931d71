use vstd::prelude::*;

verus! {

/// Owns the original manifest text and the write discipline around trials.
///
/// Every write that reaches the real on-disk manifest must be a string this
/// store handed out, written in the order it handed them out: the store's
/// `disk` field then models the on-disk content exactly. A run checks the
/// manifest out once, routes every trial rewrite through `trial_write`, and
/// ends — on the normal path, the error path and the interruption path
/// alike — by writing what `restore` returns.
///
/// Restoration invariant: however many trial writes occurred, once `restore`
/// has run the modeled disk content is byte-identical to the snapshot, and
/// running it again changes nothing. `restore` depends on no other state
/// having survived, so it is safe to call from an interruption path.
pub struct ManifestStore {
    snapshot: String,
    disk: String,
    restored: bool,
}

impl ManifestStore {
    /// The manifest text captured at checkout.
    pub closed spec fn snapshot(self) -> Seq<char> {
        self.snapshot@
    }

    /// Model of the current on-disk manifest content.
    pub closed spec fn disk(self) -> Seq<char> {
        self.disk@
    }

    /// Whether restoration has run.
    pub closed spec fn restored(self) -> bool {
        self.restored
    }

    /// Restoration invariant: a restored store models a disk holding the
    /// snapshot, byte for byte.
    pub open spec fn wf(self) -> bool {
        self.restored() ==> self.disk() == self.snapshot()
    }

    /// Captures the manifest content, once, at the start of a run. The disk
    /// holds exactly that content.
    pub fn checkout(manifest_text: String) -> (r: ManifestStore)
        ensures
            r.snapshot() == manifest_text@,
            r.disk() == manifest_text@,
            !r.restored(),
            r.wf(),
    {
        let disk = manifest_text.clone();
        ManifestStore { snapshot: manifest_text, disk, restored: false }
    }

    /// Routes one trial rewrite: records `text` as the new disk content and
    /// hands it back for the caller to write to the real manifest file.
    pub fn trial_write(&mut self, text: String) -> (r: String)
        requires
            !old(self).restored(),
        ensures
            r@ == text@,
            final(self).disk() == text@,
            final(self).snapshot() == old(self).snapshot(),
            !final(self).restored(),
            final(self).wf(),
    {
        self.disk = text.clone();
        text
    }

    /// Restoration: hands back the snapshot, verbatim, for the caller to
    /// write to the real manifest file, and records that the disk holds it
    /// again. Whatever trial writes came before, the modeled disk afterwards
    /// equals the snapshot; calling this again returns the same text and
    /// changes nothing, so the guarantee is discharged exactly once however
    /// many paths reach it.
    pub fn restore(&mut self) -> (r: String)
        ensures
            r@ == old(self).snapshot(),
            final(self).snapshot() == old(self).snapshot(),
            final(self).disk() == old(self).snapshot(),
            final(self).restored(),
            final(self).wf(),
    {
        self.disk = self.snapshot.clone();
        self.restored = true;
        self.snapshot.clone()
    }

    /// The snapshot text, for re-parsing a fresh document per dependency.
    pub fn snapshot_string(&self) -> (r: String)
        ensures
            r@ == self.snapshot(),
    {
        self.snapshot.clone()
    }

    /// The modeled on-disk content, for checking what a run left behind.
    pub fn disk_string(&self) -> (r: String)
        ensures
            r@ == self.disk(),
    {
        self.disk.clone()
    }
}

} // verus!
