//! The manifest document model and the per-entry extraction rules.
//!
//! A manifest is a JSON object keyed by install-relative file name. Each
//! entry carries `only` (the architecture tags it applies to), `dl`,
//! `compHash` and `hash` (the full download and its digests), and `patches`
//! (per-predecessor-digest patch descriptors `{filename, compPatchHash,
//! patchHash}`). The updater consumes the document as a loosely-typed tree;
//! [`Json`] is that tree, with every scalar the manifest cares about held as
//! a plain byte string. Each extraction rule is written twice: a spec
//! function that says which value or which fault a lookup yields, and an
//! executable function proved to agree with it.

use vstd::prelude::*;

use crate::codec::{parse_hex_digest, sha_from_hash_str};
use crate::error::{Error, ManifestFault};
use crate::sha::bytes_eq;

verus! {

/// A JSON value, as much of it as the manifest rules read. Strings are byte
/// strings; numbers carry no payload, since no manifest field is numeric
/// and a number in place of an expected string or object is a fault either
/// way.
pub enum Json {
    Null,
    Bool(bool),
    Number,
    Str(Vec<u8>),
    Arr(Vec<Json>),
    Obj(Vec<(Vec<u8>, Json)>),
}

/// The byte string `only`.
pub open spec fn only_key() -> Seq<u8> {
    seq![111u8, 110u8, 108u8, 121u8]
}

/// The byte string `dl`.
pub open spec fn dl_key() -> Seq<u8> {
    seq![100u8, 108u8]
}

/// The byte string `compHash`.
pub open spec fn comp_hash_key() -> Seq<u8> {
    seq![99u8, 111u8, 109u8, 112u8, 72u8, 97u8, 115u8, 104u8]
}

/// The byte string `hash`.
pub open spec fn hash_key() -> Seq<u8> {
    seq![104u8, 97u8, 115u8, 104u8]
}

/// The byte string `patches`.
pub open spec fn patches_key() -> Seq<u8> {
    seq![112u8, 97u8, 116u8, 99u8, 104u8, 101u8, 115u8]
}

/// The byte string `filename`.
pub open spec fn filename_key() -> Seq<u8> {
    seq![102u8, 105u8, 108u8, 101u8, 110u8, 97u8, 109u8, 101u8]
}

/// The byte string `compPatchHash`.
pub open spec fn comp_patch_hash_key() -> Seq<u8> {
    seq![99u8, 111u8, 109u8, 112u8, 80u8, 97u8, 116u8, 99u8, 104u8, 72u8, 97u8, 115u8, 104u8]
}

/// The byte string `patchHash`.
pub open spec fn patch_hash_key() -> Seq<u8> {
    seq![112u8, 97u8, 116u8, 99u8, 104u8, 72u8, 97u8, 115u8, 104u8]
}

/// The architecture tag this build matches against `only`: `linux2`.
pub open spec fn default_arch() -> Seq<u8> {
    seq![108u8, 105u8, 110u8, 117u8, 120u8, 50u8]
}

/// The byte string `linux2`, the architecture tag of this build.
pub fn default_arch_bytes() -> (v: Vec<u8>)
    ensures
        v@ == default_arch(),
{
    let mut v: Vec<u8> = Vec::new();
    v.push(108);
    v.push(105);
    v.push(110);
    v.push(117);
    v.push(120);
    v.push(50);
    proof {
        assert(v@ =~= default_arch());
    }
    v
}

/// The first value under `key` among an object's fields, scanned in order.
pub open spec fn obj_lookup(entries: Seq<(Vec<u8>, Json)>, key: Seq<u8>) -> Option<Json>
    decreases entries.len(),
{
    if entries.len() == 0 {
        None
    } else if entries[0].0@ == key {
        Some(entries[0].1)
    } else {
        obj_lookup(entries.skip(1), key)
    }
}

/// Looks a key up among an object's fields.
pub fn obj_get<'a>(entries: &'a Vec<(Vec<u8>, Json)>, key: &[u8]) -> (r: Option<&'a Json>)
    ensures
        match r {
            Some(v) => obj_lookup(entries@, key@) == Some(*v),
            None => obj_lookup(entries@, key@) is None,
        },
{
    proof {
        assert(entries@.skip(0) =~= entries@);
    }
    let mut i: usize = 0;
    while i < entries.len()
        invariant
            0 <= i <= entries@.len(),
            obj_lookup(entries@.skip(i as int), key@) == obj_lookup(entries@, key@),
        decreases entries@.len() - i,
    {
        proof {
            assert(entries@.skip(i as int)[0] == entries@[i as int]);
            assert(entries@.skip(i as int).skip(1) =~= entries@.skip(i as int + 1));
        }
        let pair = &entries[i];
        if bytes_eq(pair.0.as_slice(), key) {
            return Some(&pair.1);
        }
        i += 1;
    }
    None
}

/// The string under `key`, or the fault for a missing key or a non-string
/// value.
pub open spec fn lookup_str(
    entries: Seq<(Vec<u8>, Json)>,
    key: Seq<u8>,
    missing: ManifestFault,
    not_str: ManifestFault,
) -> Result<Seq<u8>, Error> {
    match obj_lookup(entries, key) {
        None => Err(Error::BadManifestFormat(missing)),
        Some(v) => match v {
            Json::Str(s) => Ok(s@),
            _ => Err(Error::BadManifestFormat(not_str)),
        },
    }
}

/// Extracts a string field.
pub fn get_str_field<'a>(
    entries: &'a Vec<(Vec<u8>, Json)>,
    key: &[u8],
    missing: ManifestFault,
    not_str: ManifestFault,
) -> (r: Result<&'a Vec<u8>, Error>)
    ensures
        match r {
            Ok(s) => lookup_str(entries@, key@, missing, not_str) == Ok::<Seq<u8>, Error>(s@),
            Err(e) => lookup_str(entries@, key@, missing, not_str) == Err::<Seq<u8>, Error>(e),
        },
{
    match obj_get(entries, key) {
        None => Err(Error::BadManifestFormat(missing)),
        Some(v) => match v {
            Json::Str(s) => Ok(s),
            _ => Err(Error::BadManifestFormat(not_str)),
        },
    }
}

/// The string under `key`, or `fault` whether the key is missing or its
/// value is not a string — as a patch descriptor's `filename` is handled.
pub open spec fn lookup_str_lenient(
    entries: Seq<(Vec<u8>, Json)>,
    key: Seq<u8>,
    fault: ManifestFault,
) -> Result<Seq<u8>, Error> {
    match obj_lookup(entries, key) {
        Some(Json::Str(s)) => Ok(s@),
        _ => Err(Error::BadManifestFormat(fault)),
    }
}

/// Extracts a string field, one fault for every failure.
pub fn get_str_field_lenient<'a>(
    entries: &'a Vec<(Vec<u8>, Json)>,
    key: &[u8],
    fault: ManifestFault,
) -> (r: Result<&'a Vec<u8>, Error>)
    ensures
        match r {
            Ok(s) => lookup_str_lenient(entries@, key@, fault) == Ok::<Seq<u8>, Error>(s@),
            Err(e) => lookup_str_lenient(entries@, key@, fault) == Err::<Seq<u8>, Error>(e),
        },
{
    match obj_get(entries, key) {
        Some(Json::Str(s)) => Ok(s),
        _ => Err(Error::BadManifestFormat(fault)),
    }
}

/// The digest spelled under `key`: the string field, parsed as 40 hex
/// digits.
pub open spec fn lookup_digest(
    entries: Seq<(Vec<u8>, Json)>,
    key: Seq<u8>,
    missing: ManifestFault,
    not_str: ManifestFault,
) -> Result<Seq<u8>, Error> {
    match lookup_str(entries, key, missing, not_str) {
        Ok(s) => parse_hex_digest(s),
        Err(e) => Err(e),
    }
}

/// Extracts a digest field.
pub fn get_digest_field(
    entries: &Vec<(Vec<u8>, Json)>,
    key: &[u8],
    missing: ManifestFault,
    not_str: ManifestFault,
) -> (r: Result<Vec<u8>, Error>)
    ensures
        match r {
            Ok(d) => lookup_digest(entries@, key@, missing, not_str) == Ok::<Seq<u8>, Error>(d@)
                && d@.len() == 20,
            Err(e) => lookup_digest(entries@, key@, missing, not_str) == Err::<Seq<u8>, Error>(e),
        },
{
    match get_str_field(entries, key, missing, not_str) {
        Ok(s) => sha_from_hash_str(s.as_slice()),
        Err(e) => Err(e),
    }
}

/// The fields of the top-level object, or the fault for any other document.
pub open spec fn manifest_entries_spec(doc: Json) -> Result<Seq<(Vec<u8>, Json)>, Error> {
    match doc {
        Json::Obj(entries) => Ok(entries@),
        _ => Err(Error::BadManifestFormat(ManifestFault::TopLevelNotObject)),
    }
}

/// The per-file entries of a manifest document, in the document's key
/// order.
pub fn manifest_entries(doc: &Json) -> (r: Result<&Vec<(Vec<u8>, Json)>, Error>)
    ensures
        match r {
            Ok(entries) => manifest_entries_spec(*doc) == Ok::<Seq<(Vec<u8>, Json)>, Error>(
                entries@,
            ),
            Err(e) => manifest_entries_spec(*doc) == Err::<Seq<(Vec<u8>, Json)>, Error>(e),
        },
{
    match doc {
        Json::Obj(entries) => Ok(entries),
        _ => Err(Error::BadManifestFormat(ManifestFault::TopLevelNotObject)),
    }
}

/// The fields of one entry, or the fault for a non-object entry.
pub open spec fn entry_fields_spec(entry: Json) -> Result<Seq<(Vec<u8>, Json)>, Error> {
    match entry {
        Json::Obj(fields) => Ok(fields@),
        _ => Err(Error::BadManifestFormat(ManifestFault::EntryNotObject)),
    }
}

/// The fields of one per-file entry.
pub fn entry_fields(entry: &Json) -> (r: Result<&Vec<(Vec<u8>, Json)>, Error>)
    ensures
        match r {
            Ok(fields) => entry_fields_spec(*entry) == Ok::<Seq<(Vec<u8>, Json)>, Error>(fields@),
            Err(e) => entry_fields_spec(*entry) == Err::<Seq<(Vec<u8>, Json)>, Error>(e),
        },
{
    match entry {
        Json::Obj(fields) => Ok(fields),
        _ => Err(Error::BadManifestFormat(ManifestFault::EntryNotObject)),
    }
}

/// Does the `only` list admit `arch`? The list is scanned in order and the
/// scan stops at the first match, so a non-string element after the match
/// is never seen; before it, one is a fault.
pub open spec fn arch_allowed_spec(items: Seq<Json>, arch: Seq<u8>) -> Result<bool, Error>
    decreases items.len(),
{
    if items.len() == 0 {
        Ok(false)
    } else {
        match items[0] {
            Json::Str(s) => if s@ == arch {
                Ok(true)
            } else {
                arch_allowed_spec(items.skip(1), arch)
            },
            _ => Err(Error::BadManifestFormat(ManifestFault::ArchNotString)),
        }
    }
}

/// What the arch check of one entry yields: whether `only` admits `arch`,
/// or the fault in the entry's shape.
pub open spec fn entry_arch_check(entry: Json, arch: Seq<u8>) -> Result<bool, Error> {
    match entry_fields_spec(entry) {
        Err(e) => Err(e),
        Ok(fields) => match obj_lookup(fields, only_key()) {
            None => Err(Error::BadManifestFormat(ManifestFault::MissingOnly)),
            Some(v) => match v {
                Json::Arr(items) => arch_allowed_spec(items@, arch),
                _ => Err(Error::BadManifestFormat(ManifestFault::OnlyNotArray)),
            },
        },
    }
}

/// Checks whether an entry's `only` list admits the given architecture tag.
pub fn arch_supported(entry: &Json, arch: &[u8]) -> (r: Result<bool, Error>)
    ensures
        r == entry_arch_check(*entry, arch@),
{
    let fields = match entry_fields(entry) {
        Ok(f) => f,
        Err(e) => {
            return Err(e);
        },
    };
    let mut key: Vec<u8> = Vec::new();
    key.push(111);
    key.push(110);
    key.push(108);
    key.push(121);
    proof {
        assert(key@ =~= only_key());
    }
    let items = match obj_get(fields, key.as_slice()) {
        None => {
            return Err(Error::BadManifestFormat(ManifestFault::MissingOnly));
        },
        Some(v) => match v {
            Json::Arr(items) => items,
            _ => {
                return Err(Error::BadManifestFormat(ManifestFault::OnlyNotArray));
            },
        },
    };
    proof {
        assert(items@.skip(0) =~= items@);
    }
    let mut i: usize = 0;
    while i < items.len()
        invariant
            0 <= i <= items@.len(),
            arch_allowed_spec(items@.skip(i as int), arch@) == arch_allowed_spec(items@, arch@),
            entry_arch_check(*entry, arch@) == arch_allowed_spec(items@, arch@),
        decreases items@.len() - i,
    {
        proof {
            assert(items@.skip(i as int)[0] == items@[i as int]);
            assert(items@.skip(i as int).skip(1) =~= items@.skip(i as int + 1));
        }
        match &items[i] {
            Json::Str(s) => {
                if bytes_eq(s.as_slice(), arch) {
                    return Ok(true);
                }
            },
            _ => {
                return Err(Error::BadManifestFormat(ManifestFault::ArchNotString));
            },
        }
        i += 1;
    }
    Ok(false)
}

/// What a full download needs from an entry: the remote name `dl` and the
/// digests `compHash` and `hash`, in the order the entry is read.
pub open spec fn scratch_params_spec(fields: Seq<(Vec<u8>, Json)>) -> Result<
    (Seq<u8>, Seq<u8>, Seq<u8>),
    Error,
> {
    match lookup_str(fields, dl_key(), ManifestFault::MissingDl, ManifestFault::DlNotString) {
        Err(e) => Err(e),
        Ok(dl) => match lookup_digest(
            fields,
            comp_hash_key(),
            ManifestFault::MissingCompHash,
            ManifestFault::CompHashNotString,
        ) {
            Err(e) => Err(e),
            Ok(comp) => match lookup_digest(
                fields,
                hash_key(),
                ManifestFault::MissingHash,
                ManifestFault::HashNotString,
            ) {
                Err(e) => Err(e),
                Ok(hash) => Ok((dl, comp, hash)),
            },
        },
    }
}

/// What one download-verify-extract cycle is to fetch and check.
pub struct DownloadParams {
    /// The remote name of the compressed artifact.
    pub dl_name: Vec<u8>,
    /// The SHA-1 digest the compressed artifact must have.
    pub comp_hash: Vec<u8>,
    /// The SHA-1 digest the decompressed artifact must have.
    pub decomp_hash: Vec<u8>,
}

impl DownloadParams {
    /// The triple of byte strings this value carries.
    pub open spec fn view_triple(self) -> (Seq<u8>, Seq<u8>, Seq<u8>) {
        (self.dl_name@, self.comp_hash@, self.decomp_hash@)
    }
}

/// Extracts `dl`, `compHash` and `hash` from an entry's fields, as the
/// download-from-scratch path needs them.
pub fn scratch_params(fields: &Vec<(Vec<u8>, Json)>) -> (r: Result<DownloadParams, Error>)
    ensures
        match r {
            Ok(p) => scratch_params_spec(fields@) == Ok::<(Seq<u8>, Seq<u8>, Seq<u8>), Error>(
                p.view_triple(),
            ) && p.comp_hash@.len() == 20 && p.decomp_hash@.len() == 20,
            Err(e) => scratch_params_spec(fields@) == Err::<(Seq<u8>, Seq<u8>, Seq<u8>), Error>(e),
        },
{
    let mut dl_k: Vec<u8> = Vec::new();
    dl_k.push(100);
    dl_k.push(108);
    let mut comp_k: Vec<u8> = Vec::new();
    comp_k.push(99);
    comp_k.push(111);
    comp_k.push(109);
    comp_k.push(112);
    comp_k.push(72);
    comp_k.push(97);
    comp_k.push(115);
    comp_k.push(104);
    let mut hash_k: Vec<u8> = Vec::new();
    hash_k.push(104);
    hash_k.push(97);
    hash_k.push(115);
    hash_k.push(104);
    proof {
        assert(dl_k@ =~= dl_key());
        assert(comp_k@ =~= comp_hash_key());
        assert(hash_k@ =~= hash_key());
    }
    let dl = match get_str_field(
        fields,
        dl_k.as_slice(),
        ManifestFault::MissingDl,
        ManifestFault::DlNotString,
    ) {
        Ok(s) => s,
        Err(e) => {
            return Err(e);
        },
    };
    let comp = match get_digest_field(
        fields,
        comp_k.as_slice(),
        ManifestFault::MissingCompHash,
        ManifestFault::CompHashNotString,
    ) {
        Ok(d) => d,
        Err(e) => {
            return Err(e);
        },
    };
    let hash = match get_digest_field(
        fields,
        hash_k.as_slice(),
        ManifestFault::MissingHash,
        ManifestFault::HashNotString,
    ) {
        Ok(d) => d,
        Err(e) => {
            return Err(e);
        },
    };
    Ok(DownloadParams { dl_name: vstd::slice::slice_to_vec(dl.as_slice()), comp_hash: comp, decomp_hash: hash })
}

/// The digest an entry expects of the installed file: its `hash` field.
pub open spec fn manifest_hash_spec(fields: Seq<(Vec<u8>, Json)>) -> Result<Seq<u8>, Error> {
    lookup_digest(fields, hash_key(), ManifestFault::MissingHash, ManifestFault::HashNotString)
}

/// Extracts the `hash` digest from an entry's fields.
pub fn manifest_hash(fields: &Vec<(Vec<u8>, Json)>) -> (r: Result<Vec<u8>, Error>)
    ensures
        match r {
            Ok(d) => manifest_hash_spec(fields@) == Ok::<Seq<u8>, Error>(d@) && d@.len() == 20,
            Err(e) => manifest_hash_spec(fields@) == Err::<Seq<u8>, Error>(e),
        },
{
    let mut hash_k: Vec<u8> = Vec::new();
    hash_k.push(104);
    hash_k.push(97);
    hash_k.push(115);
    hash_k.push(104);
    proof {
        assert(hash_k@ =~= hash_key());
    }
    get_digest_field(
        fields,
        hash_k.as_slice(),
        ManifestFault::MissingHash,
        ManifestFault::HashNotString,
    )
}

/// The `patches` object of an entry; a missing key and a value of any
/// other type draw one and the same fault.
pub open spec fn patches_fields_spec(fields: Seq<(Vec<u8>, Json)>) -> Result<
    Seq<(Vec<u8>, Json)>,
    Error,
> {
    match obj_lookup(fields, patches_key()) {
        Some(Json::Obj(patches)) => Ok(patches@),
        _ => Err(Error::BadManifestFormat(ManifestFault::PatchesNotObject)),
    }
}

/// Extracts the `patches` object from an entry's fields.
pub fn patches_fields<'a>(fields: &'a Vec<(Vec<u8>, Json)>) -> (r: Result<
    &'a Vec<(Vec<u8>, Json)>,
    Error,
>)
    ensures
        match r {
            Ok(p) => patches_fields_spec(fields@) == Ok::<Seq<(Vec<u8>, Json)>, Error>(p@),
            Err(e) => patches_fields_spec(fields@) == Err::<Seq<(Vec<u8>, Json)>, Error>(e),
        },
{
    let mut k: Vec<u8> = Vec::new();
    k.push(112);
    k.push(97);
    k.push(116);
    k.push(99);
    k.push(104);
    k.push(101);
    k.push(115);
    proof {
        assert(k@ =~= patches_key());
    }
    match obj_get(fields, k.as_slice()) {
        Some(Json::Obj(patches)) => Ok(patches),
        _ => Err(Error::BadManifestFormat(ManifestFault::PatchesNotObject)),
    }
}

/// What one patch descriptor yields: `(filename, compPatchHash,
/// patchHash)`, or the fault in its shape.
pub open spec fn patch_desc_spec(v: Json) -> Result<(Seq<u8>, Seq<u8>, Seq<u8>), Error> {
    match v {
        Json::Obj(pf) => match lookup_str_lenient(
            pf@,
            filename_key(),
            ManifestFault::MissingPatchFilename,
        ) {
            Err(e) => Err(e),
            Ok(fname) => match lookup_digest(
                pf@,
                comp_patch_hash_key(),
                ManifestFault::MissingCompPatchHash,
                ManifestFault::CompPatchHashNotString,
            ) {
                Err(e) => Err(e),
                Ok(cph) => match lookup_digest(
                    pf@,
                    patch_hash_key(),
                    ManifestFault::MissingPatchHash,
                    ManifestFault::PatchHashNotString,
                ) {
                    Err(e) => Err(e),
                    Ok(ph) => Ok((fname, cph, ph)),
                },
            },
        },
        _ => Err(Error::BadManifestFormat(ManifestFault::PatchEntryNotObject)),
    }
}

/// A patch descriptor, extracted: which compressed patch to fetch and the
/// digests it and its extraction must have.
pub struct PatchInfo {
    /// The remote name of the compressed patch.
    pub filename: Vec<u8>,
    /// The SHA-1 digest the compressed patch must have.
    pub comp_patch_hash: Vec<u8>,
    /// The SHA-1 digest the extracted patch blob must have.
    pub patch_hash: Vec<u8>,
}

impl PatchInfo {
    /// The triple of byte strings this value carries.
    pub open spec fn view_triple(self) -> (Seq<u8>, Seq<u8>, Seq<u8>) {
        (self.filename@, self.comp_patch_hash@, self.patch_hash@)
    }
}

/// Extracts one patch descriptor.
fn patch_desc(v: &Json) -> (r: Result<PatchInfo, Error>)
    ensures
        match r {
            Ok(info) => patch_desc_spec(*v) == Ok::<(Seq<u8>, Seq<u8>, Seq<u8>), Error>(
                info.view_triple(),
            ) && info.comp_patch_hash@.len() == 20 && info.patch_hash@.len() == 20,
            Err(e) => patch_desc_spec(*v) == Err::<(Seq<u8>, Seq<u8>, Seq<u8>), Error>(e),
        },
{
    let pf = match v {
        Json::Obj(pf) => pf,
        _ => {
            return Err(Error::BadManifestFormat(ManifestFault::PatchEntryNotObject));
        },
    };
    let mut fname_k: Vec<u8> = Vec::new();
    fname_k.push(102);
    fname_k.push(105);
    fname_k.push(108);
    fname_k.push(101);
    fname_k.push(110);
    fname_k.push(97);
    fname_k.push(109);
    fname_k.push(101);
    let mut cph_k: Vec<u8> = Vec::new();
    cph_k.push(99);
    cph_k.push(111);
    cph_k.push(109);
    cph_k.push(112);
    cph_k.push(80);
    cph_k.push(97);
    cph_k.push(116);
    cph_k.push(99);
    cph_k.push(104);
    cph_k.push(72);
    cph_k.push(97);
    cph_k.push(115);
    cph_k.push(104);
    let mut ph_k: Vec<u8> = Vec::new();
    ph_k.push(112);
    ph_k.push(97);
    ph_k.push(116);
    ph_k.push(99);
    ph_k.push(104);
    ph_k.push(72);
    ph_k.push(97);
    ph_k.push(115);
    ph_k.push(104);
    proof {
        assert(fname_k@ =~= filename_key());
        assert(cph_k@ =~= comp_patch_hash_key());
        assert(ph_k@ =~= patch_hash_key());
    }
    let fname = match get_str_field_lenient(pf, fname_k.as_slice(), ManifestFault::MissingPatchFilename) {
        Ok(s) => s,
        Err(e) => {
            return Err(e);
        },
    };
    let cph = match get_digest_field(
        pf,
        cph_k.as_slice(),
        ManifestFault::MissingCompPatchHash,
        ManifestFault::CompPatchHashNotString,
    ) {
        Ok(d) => d,
        Err(e) => {
            return Err(e);
        },
    };
    let ph = match get_digest_field(
        pf,
        ph_k.as_slice(),
        ManifestFault::MissingPatchHash,
        ManifestFault::PatchHashNotString,
    ) {
        Ok(d) => d,
        Err(e) => {
            return Err(e);
        },
    };
    Ok(PatchInfo {
        filename: vstd::slice::slice_to_vec(fname.as_slice()),
        comp_patch_hash: cph,
        patch_hash: ph,
    })
}

/// The first patch whose key — a digest spelled in hex — names the local
/// file's digest, walked in the object's order: its descriptor, `None`
/// when no key matches, or the first fault (a malformed key is a fault
/// even when it would not have matched).
pub open spec fn find_patch_spec(patches: Seq<(Vec<u8>, Json)>, local: Seq<u8>) -> Result<
    Option<(Seq<u8>, Seq<u8>, Seq<u8>)>,
    Error,
>
    decreases patches.len(),
{
    if patches.len() == 0 {
        Ok(None)
    } else {
        match parse_hex_digest(patches[0].0@) {
            Err(e) => Err(e),
            Ok(d) => if d != local {
                find_patch_spec(patches.skip(1), local)
            } else {
                match patch_desc_spec(patches[0].1) {
                    Err(e) => Err(e),
                    Ok(t) => Ok(Some(t)),
                }
            },
        }
    }
}

/// Finds the patch keyed by the local file's digest.
pub fn find_patch(patches: &Vec<(Vec<u8>, Json)>, local: &[u8]) -> (r: Result<
    Option<PatchInfo>,
    Error,
>)
    ensures
        match r {
            Ok(found) => match found {
                Some(info) => find_patch_spec(patches@, local@) == Ok::<
                    Option<(Seq<u8>, Seq<u8>, Seq<u8>)>,
                    Error,
                >(Some(info.view_triple())) && info.comp_patch_hash@.len() == 20
                    && info.patch_hash@.len() == 20,
                None => find_patch_spec(patches@, local@) == Ok::<
                    Option<(Seq<u8>, Seq<u8>, Seq<u8>)>,
                    Error,
                >(None),
            },
            Err(e) => find_patch_spec(patches@, local@) == Err::<
                Option<(Seq<u8>, Seq<u8>, Seq<u8>)>,
                Error,
            >(e),
        },
{
    proof {
        assert(patches@.skip(0) =~= patches@);
    }
    let mut i: usize = 0;
    while i < patches.len()
        invariant
            0 <= i <= patches@.len(),
            find_patch_spec(patches@.skip(i as int), local@) == find_patch_spec(patches@, local@),
        decreases patches@.len() - i,
    {
        proof {
            assert(patches@.skip(i as int)[0] == patches@[i as int]);
            assert(patches@.skip(i as int).skip(1) =~= patches@.skip(i as int + 1));
        }
        let pair = &patches[i];
        let d = match sha_from_hash_str(pair.0.as_slice()) {
            Ok(d) => d,
            Err(e) => {
                return Err(e);
            },
        };
        if bytes_eq(d.as_slice(), local) {
            match patch_desc(&pair.1) {
                Ok(info) => {
                    return Ok(Some(info));
                },
                Err(e) => {
                    return Err(e);
                },
            }
        }
        i += 1;
    }
    Ok(None)
}

} // verus!
