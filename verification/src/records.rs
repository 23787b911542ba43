//! The contact, group and profile records handed to JavaScript, built from
//! what the store holds.

use vstd::prelude::*;
use crate::hexcodec::{hex_encode, hex_lower, is_lower_hex_digit, lemma_hex_lower_digits};

verus! {

/// A stored contact as the store describes it: its UUID and phone number in
/// text form and its display name (empty when unknown).
pub struct ContactRecord {
    pub uuid: String,
    pub phone_number: Option<String>,
    pub name: String,
}

/// A contact as JavaScript sees it: an empty name becomes `None`.
pub struct JsContact {
    pub uuid: String,
    pub phone_number: Option<String>,
    pub name: Option<String>,
}

/// A stored group: its master key, title, optional description and the
/// number of its members.
pub struct GroupRecord {
    pub master_key: Vec<u8>,
    pub title: String,
    pub description: Option<String>,
    pub member_count: usize,
}

/// A group as JavaScript sees it: `id` is the lower-case hex text of the master key.
pub struct JsGroup {
    pub id: String,
    pub name: String,
    pub description: Option<String>,
    pub members_count: u32,
}

/// The registered account's own profile.
pub struct JsProfile {
    pub uuid: String,
    pub phone_number: Option<String>,
}

/// `js` is what `contact` becomes for JavaScript.
pub open spec fn contact_converted(contact: ContactRecord, js: JsContact) -> bool {
    &&& js.uuid == contact.uuid
    &&& js.phone_number == contact.phone_number
    &&& if contact.name@.len() == 0 {
        js.name is None
    } else {
        js.name == Some(contact.name)
    }
}

/// `js` is what `group` becomes for JavaScript; the member count is cut to 32 bits.
pub open spec fn group_converted(group: GroupRecord, js: JsGroup) -> bool {
    &&& js.id@ == hex_lower(group.master_key@)
    &&& js.name == group.title
    &&& js.description == group.description
    &&& js.members_count == group.member_count as u32
}

/// The records that were read successfully, in their order; failed reads
/// (`None`) are skipped.
pub open spec fn successful<T>(reads: Seq<Option<T>>) -> Seq<T>
    decreases reads.len(),
{
    if reads.len() == 0 {
        Seq::empty()
    } else {
        match reads.last() {
            Some(r) => successful(reads.drop_last()).push(r),
            None => successful(reads.drop_last()),
        }
    }
}

/// Converts one stored contact.
pub fn contact_to_js(contact: ContactRecord) -> (js: JsContact)
    ensures
        contact_converted(contact, js),
{
    let ContactRecord { uuid, phone_number, name } = contact;
    let name = if name.as_str().is_empty() {
        None
    } else {
        Some(name)
    };
    JsContact { uuid, phone_number, name }
}

/// Converts one stored group.
pub fn group_to_js(group: GroupRecord) -> (js: JsGroup)
    ensures
        group_converted(group, js),
{
    let id = hex_encode(group.master_key.as_slice());
    let GroupRecord { master_key: _, title, description, member_count } = group;
    JsGroup { id, name: title, description, members_count: member_count as u32 }
}

/// A listed group's id is lower-case hex, two digits per byte of its master
/// key: 64 digits for a 32-byte key.
pub proof fn law_group_id_is_lower_hex(group: GroupRecord, js: JsGroup)
    requires
        group_converted(group, js),
    ensures
        js.id@.len() == 2 * group.master_key@.len(),
        group.master_key@.len() == 32 ==> js.id@.len() == 64,
        forall|i: int| 0 <= i < js.id@.len() ==> is_lower_hex_digit(#[trigger] js.id@[i]),
{
    lemma_hex_lower_digits(group.master_key@);
}

/// A listed group keeps its title as its name and its description as it is
/// stored; the member count is the stored count modulo 2^32.
pub proof fn law_group_keeps_title_and_description(group: GroupRecord, js: JsGroup)
    requires
        group_converted(group, js),
    ensures
        js.name == group.title,
        js.description == group.description,
        group.description is Some ==> js.description is Some && js.description->Some_0
            == group.description->Some_0,
        js.members_count as int == group.member_count as int % 0x1_0000_0000,
{
    let c: u32 = js.members_count;
    let n: usize = group.member_count;
    assert(c as int == n as int % 0x1_0000_0000) by (bit_vector)
        requires
            c == n as u32,
    ;
}

/// A listed contact keeps its UUID and phone number, and is named by its
/// stored name whenever that name is not empty, whatever its phone number;
/// only an empty name is listed as no name.
pub proof fn law_contact_keeps_its_name(contact: ContactRecord, js: JsContact)
    requires
        contact_converted(contact, js),
    ensures
        js.uuid == contact.uuid,
        js.phone_number == contact.phone_number,
        contact.name@.len() > 0 ==> js.name == Some(contact.name),
        contact.name@.len() == 0 ==> js.name is None,
        js.name is Some ==> js.name->Some_0@.len() > 0,
{
}

/// Builds the profile of the registered account from its UUID and phone number.
pub fn get_profile(uuid: String, phone_number: String) -> (js: JsProfile)
    ensures
        js.uuid == uuid,
        js.phone_number == Some(phone_number),
{
    JsProfile { uuid, phone_number: Some(phone_number) }
}

proof fn lemma_successful_push<T>(reads: Seq<Option<T>>, r: Option<T>)
    ensures
        successful(reads.push(r)) == match r {
            Some(x) => successful(reads).push(x),
            None => successful(reads),
        },
{
    assert(reads.push(r).drop_last() =~= reads);
}

/// Lists the stored contacts that could be read, in store order, converted
/// for JavaScript; contacts whose read failed are skipped.
pub fn list_contacts(reads: Vec<Option<ContactRecord>>) -> (list: Vec<JsContact>)
    ensures
        list.len() == successful(reads@).len(),
        forall|i: int|
            0 <= i < list.len() ==> contact_converted(successful(reads@)[i], #[trigger] list[i]),
{
    let ghost all = reads@;
    let mut list: Vec<JsContact> = Vec::new();
    for read in it: reads.into_iter()
        invariant
            it.seq() == all,
            list.len() == successful(all.take(it.index())).len(),
            forall|i: int|
                0 <= i < list.len() ==> contact_converted(
                    successful(all.take(it.index()))[i],
                    #[trigger] list[i],
                ),
    {
        proof {
            assert(all.take(it.index() + 1) =~= all.take(it.index()).push(all[it.index()]));
            lemma_successful_push(all.take(it.index()), all[it.index()]);
        }
        match read {
            Some(contact) => list.push(contact_to_js(contact)),
            None => {},
        }
    }
    proof {
        assert(all.take(all.len() as int) =~= all);
    }
    list
}

/// Lists the stored groups that could be read, in store order, converted
/// for JavaScript; groups whose read failed are skipped.
pub fn list_groups(reads: Vec<Option<GroupRecord>>) -> (list: Vec<JsGroup>)
    ensures
        list.len() == successful(reads@).len(),
        forall|i: int|
            0 <= i < list.len() ==> group_converted(successful(reads@)[i], #[trigger] list[i]),
{
    let ghost all = reads@;
    let mut list: Vec<JsGroup> = Vec::new();
    for read in it: reads.into_iter()
        invariant
            it.seq() == all,
            list.len() == successful(all.take(it.index())).len(),
            forall|i: int|
                0 <= i < list.len() ==> group_converted(
                    successful(all.take(it.index()))[i],
                    #[trigger] list[i],
                ),
    {
        proof {
            assert(all.take(it.index() + 1) =~= all.take(it.index()).push(all[it.index()]));
            lemma_successful_push(all.take(it.index()), all[it.index()]);
        }
        match read {
            Some(group) => list.push(group_to_js(group)),
            None => {},
        }
    }
    proof {
        assert(all.take(all.len() as int) =~= all);
    }
    list
}

} // verus!
