//! The configuration store and the record that keeps an overlay across
//! restarts.
//!
//! The record is a length of two bytes, the high byte first, and right after
//! it that many bytes of an encoded overlay. A length with all bits set
//! stands for no record. The encoding of the overlay is not this module's
//! business: it reads and writes the encoded bytes as they are.

use vstd::prelude::*;
use vstd::string::*;
use crate::chip_control::ChipControlAction;
use crate::config::{ConfigInstance, ConfigModel, MutableConfigInstance, OverlayModel};
use crate::error::{general_fault, Error, Result};
use crate::storage::{write_at, NvStorage};

verus! {

/// The storage address of the length of the configuration record.
pub const CONFIG_LEN_FLASH_ADDR: u32 = 0x9200;

/// The storage address of the encoded overlay.
pub const CONFIG_DATA_FLASH_ADDR: u32 = 0x9202;

/// The largest number of bytes an encoded overlay may have.
pub const MAX_CONFIG_DATA_LEN: usize = 2046;

/// The length that stands for no record; erased storage reads as this.
pub const NO_CONFIG_LEN: u16 = 0xFFFF;

/// What the storage holds of the configuration record.
pub enum ConfigRecord {
    /// The record does not lie inside the storage window.
    Unreadable,
    /// There is no record.
    Absent,
    /// The encoded overlay.
    Present(Seq<u8>),
}

/// The two bytes that stand for a length, the high byte first.
pub open spec fn len_field(len: u16) -> Seq<u8> {
    seq![(len / 256) as u8, (len % 256) as u8]
}

/// The length that two bytes stand for.
pub open spec fn len_of_field(field: Seq<u8>) -> u16
    recommends
        field.len() == 2,
{
    (field[0] * 256 + field[1]) as u16
}

/// What `storage` holds of the configuration record.
pub open spec fn config_record(storage: NvStorage) -> ConfigRecord {
    if !storage.covers(CONFIG_LEN_FLASH_ADDR, 2) {
        ConfigRecord::Unreadable
    } else {
        let len = len_of_field(storage.bytes_at(CONFIG_LEN_FLASH_ADDR, 2));
        if len == NO_CONFIG_LEN {
            ConfigRecord::Absent
        } else if !storage.covers(CONFIG_DATA_FLASH_ADDR, len as nat) {
            ConfigRecord::Unreadable
        } else {
            ConfigRecord::Present(storage.bytes_at(CONFIG_DATA_FLASH_ADDR, len as nat))
        }
    }
}

/// Whether a record of `len` bytes of encoded overlay can be written to
/// `storage`.
pub open spec fn can_persist(storage: NvStorage, len: nat) -> bool {
    &&& len <= MAX_CONFIG_DATA_LEN
    &&& storage.covers(CONFIG_LEN_FLASH_ADDR, 2)
    &&& storage.covers(CONFIG_DATA_FLASH_ADDR, len)
}

/// The bytes of `storage` after the record of the encoded overlay `data`
/// was written to it.
pub open spec fn persisted(storage: NvStorage, data: Seq<u8>) -> Seq<u8>
    recommends
        can_persist(storage, data.len()),
{
    write_at(
        storage.written(CONFIG_LEN_FLASH_ADDR, len_field(data.len() as u16)),
        CONFIG_DATA_FLASH_ADDR - storage.base(),
        data,
    )
}

/// Writes the length of the configuration record. Fails, with nothing
/// written, if and only if the length does not lie inside the storage
/// window.
pub fn write_config_len_to_flash(storage: &mut NvStorage, cfg_len: u16) -> (r: Result<()>)
    ensures
        final(storage).base() == old(storage).base(),
        final(storage)@.len() == old(storage)@.len(),
        r is Ok <==> old(storage).covers(CONFIG_LEN_FLASH_ADDR, 2),
        r is Ok ==> final(storage)@ == old(storage).written(
            CONFIG_LEN_FLASH_ADDR,
            len_field(cfg_len),
        ),
        r matches Err(e) ==> final(storage)@ == old(storage)@ && e is GeneralFault,
{
    let mut bytes: Vec<u8> = Vec::new();
    bytes.push((cfg_len / 256) as u8);
    bytes.push((cfg_len % 256) as u8);
    assert(bytes@ =~= len_field(cfg_len));
    match storage.write(CONFIG_LEN_FLASH_ADDR, bytes.as_slice()) {
        Ok(()) => Ok(()),
        Err(_) => Err(
            general_fault(String::from_str("Failed to write config len field to flash storage")),
        ),
    }
}

/// Writes the encoded overlay of the configuration record. Fails, with
/// nothing written, if and only if it does not lie inside the storage
/// window.
pub fn write_config_data_to_flash(storage: &mut NvStorage, cfg_data: &[u8]) -> (r: Result<()>)
    ensures
        final(storage).base() == old(storage).base(),
        final(storage)@.len() == old(storage)@.len(),
        r is Ok <==> old(storage).covers(CONFIG_DATA_FLASH_ADDR, cfg_data@.len()),
        r is Ok ==> final(storage)@ == old(storage).written(CONFIG_DATA_FLASH_ADDR, cfg_data@),
        r matches Err(e) ==> final(storage)@ == old(storage)@ && e is GeneralFault,
{
    match storage.write(CONFIG_DATA_FLASH_ADDR, cfg_data) {
        Ok(()) => Ok(()),
        Err(_) => Err(
            general_fault(String::from_str("Failed to write config data field to flash storage")),
        ),
    }
}

/// Removes the configuration record: after it the storage holds no record,
/// and the next start takes the defaults.
pub fn reset_config_flash(storage: &mut NvStorage) -> (r: Result<()>)
    ensures
        final(storage).base() == old(storage).base(),
        final(storage)@.len() == old(storage)@.len(),
        r is Ok <==> old(storage).covers(CONFIG_LEN_FLASH_ADDR, 2),
        r is Ok ==> {
            &&& final(storage)@ == old(storage).written(
                CONFIG_LEN_FLASH_ADDR,
                len_field(NO_CONFIG_LEN),
            )
            &&& config_record(*final(storage)) == ConfigRecord::Absent
        },
        r matches Err(e) ==> final(storage)@ == old(storage)@ && e is GeneralFault,
{
    let r = write_config_len_to_flash(storage, NO_CONFIG_LEN);
    proof {
        if r is Ok {
            lemma_len_field_written(*old(storage), *storage, NO_CONFIG_LEN);
        }
    }
    r
}

/// Writes the record of an encoded overlay: its length, then its bytes.
///
/// An overlay of more than `MAX_CONFIG_DATA_LEN` bytes is turned down with
/// a general fault and the storage is left as it was. Otherwise the call
/// fails only where the record does not lie inside the storage window; the
/// length may then have been written without the bytes.
pub fn persist_to_flash(storage: &mut NvStorage, data: &[u8]) -> (r: Result<()>)
    ensures
        final(storage).base() == old(storage).base(),
        final(storage)@.len() == old(storage)@.len(),
        r is Ok <==> can_persist(*old(storage), data@.len()),
        r is Ok ==> {
            &&& final(storage)@ == persisted(*old(storage), data@)
            &&& config_record(*final(storage)) == ConfigRecord::Present(data@)
        },
        r matches Err(e) ==> e is GeneralFault,
        data@.len() > MAX_CONFIG_DATA_LEN || !old(storage).covers(CONFIG_LEN_FLASH_ADDR, 2)
            ==> final(storage)@ == old(storage)@,
        r is Err && data@.len() <= MAX_CONFIG_DATA_LEN && old(storage).covers(
            CONFIG_LEN_FLASH_ADDR,
            2,
        ) ==> final(storage)@ == old(storage).written(
            CONFIG_LEN_FLASH_ADDR,
            len_field(data@.len() as u16),
        ),
{
    if data.len() > MAX_CONFIG_DATA_LEN {
        return Err(
            general_fault(
                String::from_str(
                    "Failed to serialize config data read for storage - max bytes exceeded",
                ),
            ),
        );
    }
    match write_config_len_to_flash(storage, data.len() as u16) {
        Ok(()) => {},
        Err(e) => { return Err(e); },
    }
    match write_config_data_to_flash(storage, data) {
        Ok(()) => {},
        Err(e) => { return Err(e); },
    }
    proof {
        lemma_persisted_record(*old(storage), *storage, data@);
    }
    Ok(())
}

/// Reads the configuration record: nothing where the storage holds no
/// record, else the encoded overlay. Fails with a general fault if and only
/// if the record does not lie inside the storage window.
pub fn read_config_from_flash(storage: &NvStorage) -> (r: Result<Option<Vec<u8>>>)
    ensures
        match r {
            Ok(None) => config_record(*storage) == ConfigRecord::Absent,
            Ok(Some(data)) => config_record(*storage) == ConfigRecord::Present(data@),
            Err(e) => config_record(*storage) == ConfigRecord::Unreadable && e is GeneralFault,
        },
{
    let field = match storage.read(CONFIG_LEN_FLASH_ADDR, 2) {
        Ok(field) => field,
        Err(_) => {
            return Err(
                general_fault(
                    String::from_str("Failed to load config len field from flash storage"),
                ),
            );
        },
    };
    let len: u16 = field[0] as u16 * 256 + field[1] as u16;
    if len == NO_CONFIG_LEN {
        return Ok(None);
    }
    match storage.read(CONFIG_DATA_FLASH_ADDR, len as usize) {
        Ok(data) => Ok(Some(data)),
        Err(_) => Err(
            general_fault(String::from_str("Failed to load config data field from flash storage")),
        ),
    }
}

/// The configuration that a start comes up with.
///
/// `decoded` is what became of the configuration record: nothing where the
/// storage holds no record, else the overlay that its bytes decode to, or
/// the fault that decoding ended in.
pub open spec fn revived(
    decoded: Option<core::result::Result<OverlayModel, Error>>,
    inst: ConfigModel,
) -> Option<ConfigModel> {
    match decoded {
        None => Some(inst),
        Some(Ok(overlay)) => Some(overlay.populate(inst)),
        Some(Err(_)) => None,
    }
}

/// The view of what became of a configuration record.
pub open spec fn decoded_model(
    decoded: Option<core::result::Result<MutableConfigInstance, Error>>,
) -> Option<core::result::Result<OverlayModel, Error>> {
    match decoded {
        None => None,
        Some(Ok(overlay)) => Some(Ok(overlay@)),
        Some(Err(e)) => Some(Err(e)),
    }
}

/// Brings the stored configuration back: `inst` as it is where the storage
/// holds no record, else `inst` with the fields that the stored overlay sets.
///
/// `decoded` is what became of the record. Where its bytes could not be
/// decoded, the record is removed, so that the next start takes the
/// defaults, and the fault of decoding is handed back. The storage is
/// touched in no other case.
pub fn revive_from_flash(
    storage: &mut NvStorage,
    decoded: Option<Result<MutableConfigInstance>>,
    inst: ConfigInstance,
) -> (r: Result<ConfigInstance>)
    ensures
        final(storage).base() == old(storage).base(),
        final(storage)@.len() == old(storage)@.len(),
        match r {
            Ok(cfg) => revived(decoded_model(decoded), inst@) == Some(cfg@) && final(storage)@
                == old(storage)@,
            Err(e) => decoded == Some(Err::<MutableConfigInstance, Error>(e)),
        },
        decoded matches Some(Err(_)) ==> r is Err && final(storage)@ == if old(storage).covers(
            CONFIG_LEN_FLASH_ADDR,
            2,
        ) {
            old(storage).written(CONFIG_LEN_FLASH_ADDR, len_field(NO_CONFIG_LEN))
        } else {
            old(storage)@
        },
        decoded matches Some(Err(_)) && old(storage).covers(CONFIG_LEN_FLASH_ADDR, 2)
            ==> config_record(*final(storage)) == ConfigRecord::Absent,
{
    match decoded {
        None => Ok(inst),
        Some(Ok(data)) => {
            let mut inst = inst;
            match data.populate(&mut inst) {
                Ok(()) => Ok(inst),
                Err(e) => Err(e),
            }
        },
        Some(Err(e)) => {
            let _ = reset_config_flash(storage);
            Err(e)
        },
    }
}

/// The store of the live configuration. The snapshot in force is replaced
/// as a whole; a reader holds on to one snapshot and never sees a mixture
/// of two.
#[derive(Clone, Debug)]
pub struct Config {
    defaults: ConfigInstance,
    instance: ConfigInstance,
}

impl View for Config {
    type V = ConfigModel;

    /// The snapshot in force.
    closed spec fn view(&self) -> ConfigModel {
        self.instance@
    }
}

impl Config {
    /// The configuration that overlays are applied to.
    pub closed spec fn defaults(&self) -> ConfigModel {
        self.defaults@
    }

    /// The store at a start. `defaults` is the configuration of a device
    /// that was never configured and `decoded` what became of the
    /// configuration record, as for `revive_from_flash`.
    pub fn new(
        storage: &mut NvStorage,
        defaults: ConfigInstance,
        decoded: Option<Result<MutableConfigInstance>>,
    ) -> (r: Result<Config>)
        ensures
            final(storage).base() == old(storage).base(),
            final(storage)@.len() == old(storage)@.len(),
            match r {
                Ok(cfg) => {
                    &&& cfg.defaults() == defaults@
                    &&& revived(decoded_model(decoded), defaults@) == Some(cfg@)
                    &&& final(storage)@ == old(storage)@
                },
                Err(e) => decoded == Some(Err::<MutableConfigInstance, Error>(e)),
            },
            decoded matches Some(Err(_)) ==> r is Err && final(storage)@ == if old(
                storage,
            ).covers(CONFIG_LEN_FLASH_ADDR, 2) {
                old(storage).written(CONFIG_LEN_FLASH_ADDR, len_field(NO_CONFIG_LEN))
            } else {
                old(storage)@
            },
            decoded matches Some(Err(_)) && old(storage).covers(CONFIG_LEN_FLASH_ADDR, 2)
                ==> config_record(*final(storage)) == ConfigRecord::Absent,
    {
        let base = defaults.snapshot();
        match revive_from_flash(storage, decoded, base) {
            Ok(instance) => Ok(Config { defaults, instance }),
            Err(e) => Err(e),
        }
    }

    /// The snapshot in force.
    pub fn load(&self) -> (r: &ConfigInstance)
        ensures
            r@ == self@,
    {
        &self.instance
    }

    /// Puts `new` in force.
    fn update(&mut self, new: ConfigInstance) -> (r: Result<()>)
        ensures
            r is Ok,
            final(self)@ == new@,
            final(self).defaults() == old(self).defaults(),
    {
        self.instance = new;
        Ok(())
    }

    /// Applies an overlay: writes its record, then puts the defaults with
    /// the overlay's fields in force and asks for a reset of the device.
    ///
    /// `encoded` is the overlay in its encoded form. The record is written
    /// before the snapshot is touched, and on any fault the snapshot in
    /// force stays as it was. An encoded overlay that is too long is turned
    /// down with the storage left as it was.
    pub fn apply(
        &mut self,
        storage: &mut NvStorage,
        update: MutableConfigInstance,
        encoded: &[u8],
    ) -> (r: Result<ChipControlAction>)
        ensures
            final(storage).base() == old(storage).base(),
            final(storage)@.len() == old(storage)@.len(),
            final(self).defaults() == old(self).defaults(),
            r is Ok <==> can_persist(*old(storage), encoded@.len()),
            r matches Ok(action) ==> {
                &&& action == ChipControlAction::Reset
                &&& final(self)@ == update@.populate(old(self).defaults())
                &&& final(storage)@ == persisted(*old(storage), encoded@)
                &&& config_record(*final(storage)) == ConfigRecord::Present(encoded@)
            },
            r matches Err(e) ==> {
                &&& e is GeneralFault
                &&& final(self)@ == old(self)@
            },
            encoded@.len() > MAX_CONFIG_DATA_LEN || !old(storage).covers(CONFIG_LEN_FLASH_ADDR, 2)
                ==> final(storage)@ == old(storage)@,
            r is Err && encoded@.len() <= MAX_CONFIG_DATA_LEN && old(storage).covers(
                CONFIG_LEN_FLASH_ADDR,
                2,
            ) ==> final(storage)@ == old(storage).written(
                CONFIG_LEN_FLASH_ADDR,
                len_field(encoded@.len() as u16),
            ),
    {
        match persist_to_flash(storage, encoded) {
            Ok(()) => {},
            Err(e) => { return Err(e); },
        }
        let mut new = self.defaults.snapshot();
        if let Err(e) = update.populate(&mut new) {
            let _ = reset_config_flash(storage);
            return Err(e);
        }
        match self.update(new) {
            Ok(()) => Ok(ChipControlAction::Reset),
            Err(e) => Err(e),
        }
    }

    /// Goes back to the defaults: removes the record, then puts the
    /// defaults in force and asks for a reset of the device. Fails, with
    /// nothing changed, if and only if the record's length does not lie
    /// inside the storage window.
    pub fn reset(&mut self, storage: &mut NvStorage) -> (r: Result<ChipControlAction>)
        ensures
            final(storage).base() == old(storage).base(),
            final(storage)@.len() == old(storage)@.len(),
            final(self).defaults() == old(self).defaults(),
            r is Ok <==> old(storage).covers(CONFIG_LEN_FLASH_ADDR, 2),
            r matches Ok(action) ==> {
                &&& action == ChipControlAction::Reset
                &&& final(self)@ == old(self).defaults()
                &&& config_record(*final(storage)) == ConfigRecord::Absent
                &&& final(storage)@ == old(storage).written(
                    CONFIG_LEN_FLASH_ADDR,
                    len_field(NO_CONFIG_LEN),
                )
            },
            r matches Err(e) ==> {
                &&& e is GeneralFault
                &&& final(self)@ == old(self)@
                &&& final(storage)@ == old(storage)@
            },
    {
        match reset_config_flash(storage) {
            Ok(()) => {},
            Err(e) => { return Err(e); },
        }
        let new = self.defaults.snapshot();
        match self.update(new) {
            Ok(()) => Ok(ChipControlAction::Reset),
            Err(e) => Err(e),
        }
    }
}

/// A length is found again from its two bytes.
pub proof fn lemma_len_field_round_trip(len: u16)
    ensures
        len_field(len).len() == 2,
        len_of_field(len_field(len)) == len,
{
}

/// After the length `len` was written, the storage holds no record if `len`
/// stands for none, and its length field reads as `len`.
proof fn lemma_len_field_written(before: NvStorage, after: NvStorage, len: u16)
    requires
        before.covers(CONFIG_LEN_FLASH_ADDR, 2),
        after.base() == before.base(),
        after@ == before.written(CONFIG_LEN_FLASH_ADDR, len_field(len)),
    ensures
        after.covers(CONFIG_LEN_FLASH_ADDR, 2),
        after.bytes_at(CONFIG_LEN_FLASH_ADDR, 2) == len_field(len),
        len == NO_CONFIG_LEN ==> config_record(after) == ConfigRecord::Absent,
{
    assert(after.bytes_at(CONFIG_LEN_FLASH_ADDR, 2) =~= len_field(len));
    lemma_len_field_round_trip(len);
}

/// A record that was written is read back as it was written: the storage
/// then holds exactly the encoded overlay that was handed in.
pub proof fn lemma_persisted_record(before: NvStorage, after: NvStorage, data: Seq<u8>)
    requires
        can_persist(before, data.len()),
        after.base() == before.base(),
        after@ == persisted(before, data),
    ensures
        config_record(after) == ConfigRecord::Present(data),
{
    let len = data.len() as u16;
    assert(after@.len() == before@.len());
    assert(after.bytes_at(CONFIG_LEN_FLASH_ADDR, 2) =~= len_field(len));
    lemma_len_field_round_trip(len);
    assert(after.bytes_at(CONFIG_DATA_FLASH_ADDR, len as nat) =~= data);
}

/// Applying an overlay and then starting again from what was stored gives
/// the snapshot that the overlay put in force: the record that is read back
/// holds the bytes that were handed in, and where these decode to the
/// overlay they were encoded from, the start comes up with the defaults
/// changed in exactly the fields that the overlay sets.
pub proof fn lemma_apply_then_reload(
    before: NvStorage,
    after: NvStorage,
    defaults: ConfigModel,
    overlay: OverlayModel,
    encoded: Seq<u8>,
)
    requires
        can_persist(before, encoded.len()),
        after.base() == before.base(),
        after@ == persisted(before, encoded),
    ensures
        config_record(after) == ConfigRecord::Present(encoded),
        revived(Some(Ok(overlay)), defaults) == Some(overlay.populate(defaults)),
{
    lemma_persisted_record(before, after, encoded);
}

/// After the record was removed a start comes up with the defaults,
/// whatever was stored before.
pub proof fn lemma_reset_then_reload(before: NvStorage, after: NvStorage, defaults: ConfigModel)
    requires
        before.covers(CONFIG_LEN_FLASH_ADDR, 2),
        after.base() == before.base(),
        after@ == before.written(CONFIG_LEN_FLASH_ADDR, len_field(NO_CONFIG_LEN)),
    ensures
        config_record(after) == ConfigRecord::Absent,
        revived(None, defaults) == Some(defaults),
{
    lemma_len_field_written(before, after, NO_CONFIG_LEN);
}

} // verus!
