use vstd::prelude::*;

use crate::model::{Message, RegistryItem, RegistryStatus, Wedding};
use crate::planner::{Planner, replaced_wedding, wedding_wf};

verus! {

/// Some registry item is named `name`.
pub open spec fn has_item(items: Seq<RegistryItem>, name: Seq<char>) -> bool {
    exists|i: int| 0 <= i < items.len() && #[trigger] items[i].name@ == name
}

/// Position of the first registry item named `name`.
pub fn find_item(items: &Vec<RegistryItem>, name: &String) -> (r: Option<usize>)
    ensures
        match r {
            Some(i) => i < items@.len() && items@[i as int].name@ == name@,
            None => !has_item(items@, name@),
        },
{
    let mut i: usize = 0;
    while i < items.len()
        invariant
            0 <= i <= items@.len(),
            forall|j: int| 0 <= j < i ==> #[trigger] items@[j].name@ != name@,
        decreases items@.len() - i,
    {
        if items[i].name == *name {
            return Some(i);
        }
        i = i + 1;
    }
    None
}

impl Planner {
    /// Adds an available gift to a wedding's registry; names are unique there.
    pub fn add_registry_item(&mut self, wedding_id: u64, name: String, description: String, price: u64) -> (r:
        Result<RegistryItem, Message>)
        requires
            old(self).wf(),
        ensures
            final(self).wf(),
            ({
                let ws = old(self).weddings@;
                &&& r is Err <==> (!ws.contains_key(wedding_id) || has_item(ws[wedding_id].registry@, name@))
                &&& !ws.contains_key(wedding_id) ==> r is Err && r->Err_0 is WeddingNotFound
                &&& ws.contains_key(wedding_id) && has_item(ws[wedding_id].registry@, name@) ==> r is Err
                    && r->Err_0 is Error
                &&& r is Err ==> *final(self) == *old(self)
                &&& r is Ok ==> {
                    let w = final(self).weddings@[wedding_id];
                    let it = r->Ok_0;
                    &&& it.name == name
                    &&& it.description == description
                    &&& it.price == price
                    &&& it.status == RegistryStatus::Available
                    &&& it.purchased_by@.len() == 0
                    &&& replaced_wedding(*old(self), *final(self), wedding_id, w)
                    &&& w == (Wedding { registry: w.registry, ..ws[wedding_id] })
                    &&& w.registry@ == ws[wedding_id].registry@.push(it)
                }
            }),
    {
        match self.weddings.get(wedding_id) {
            None => {
                return Err(Message::WeddingNotFound("Wedding not found".to_string()));
            },
            Some(w) => {
                if find_item(&w.registry, &name).is_some() {
                    return Err(Message::Error("Registry item already exists".to_string()));
                }
            },
        }
        let (pos, mut wedding) = self.weddings.checkout(wedding_id).unwrap();
        let item = RegistryItem {
            name,
            description,
            price,
            status: RegistryStatus::Available,
            purchased_by: String::new(),
        };
        let result = item.duplicate();
        wedding.registry.push(item);
        let ghost w = wedding;
        self.weddings.put_back(pos, wedding_id, wedding);
        assert(self.weddings.ids() =~= old(self).weddings.ids());
        proof {
            let old_is = old(self).weddings@[wedding_id].registry@;
            assert(self.weddings@ =~= old(self).weddings@.insert(wedding_id, w));
            assert(wedding_wf(old(self).weddings@[wedding_id], self.ids.peek()));
            assert forall|a: int, b: int|
                0 <= a < w.registry@.len() && 0 <= b < w.registry@.len() && a != b implies
                #[trigger] w.registry@[a].name@ != #[trigger] w.registry@[b].name@ by {
                if a == old_is.len() {
                    assert(old_is[b].name@ != result.name@);
                } else if b == old_is.len() {
                    assert(old_is[a].name@ != result.name@);
                }
            }
        }
        Ok(result)
    }

    /// Sets the status and purchaser of a registry item.
    pub fn update_registry_item_status(
        &mut self,
        wedding_id: u64,
        item_name: String,
        status: RegistryStatus,
        purchased_by: String,
    ) -> (r: Result<RegistryItem, Message>)
        requires
            old(self).wf(),
        ensures
            final(self).wf(),
            ({
                let ws = old(self).weddings@;
                &&& r is Err <==> (!ws.contains_key(wedding_id) || !has_item(
                    ws[wedding_id].registry@,
                    item_name@,
                ))
                &&& !ws.contains_key(wedding_id) ==> r is Err && r->Err_0 is WeddingNotFound
                &&& ws.contains_key(wedding_id) && !has_item(ws[wedding_id].registry@, item_name@) ==> r is Err
                    && r->Err_0 is Error
                &&& r is Err ==> *final(self) == *old(self)
                &&& r is Ok ==> {
                    let old_is = ws[wedding_id].registry@;
                    let w = final(self).weddings@[wedding_id];
                    let it = r->Ok_0;
                    &&& exists|i: int| #![trigger old_is[i]]
                        0 <= i < old_is.len() && old_is[i].name@ == item_name@ && it == (RegistryItem {
                            status,
                            purchased_by,
                            ..old_is[i]
                        }) && w.registry@ == old_is.update(i, it)
                    &&& replaced_wedding(*old(self), *final(self), wedding_id, w)
                    &&& w == (Wedding { registry: w.registry, ..ws[wedding_id] })
                }
            }),
    {
        let idx = match self.weddings.get(wedding_id) {
            None => {
                return Err(Message::WeddingNotFound("Wedding not found".to_string()));
            },
            Some(w) => match find_item(&w.registry, &item_name) {
                None => {
                    return Err(Message::Error("Registry item not found".to_string()));
                },
                Some(i) => i,
            },
        };
        let (pos, mut wedding) = self.weddings.checkout(wedding_id).unwrap();
        let mut item = wedding.registry.remove(idx);
        item.status = status;
        item.purchased_by = purchased_by;
        let result = item.duplicate();
        wedding.registry.insert(idx, item);
        let ghost w = wedding;
        self.weddings.put_back(pos, wedding_id, wedding);
        assert(self.weddings.ids() =~= old(self).weddings.ids());
        proof {
            let old_is = old(self).weddings@[wedding_id].registry@;
            assert(w.registry@ =~= old_is.update(idx as int, result));
            assert(self.weddings@ =~= old(self).weddings@.insert(wedding_id, w));
            assert(wedding_wf(old(self).weddings@[wedding_id], self.ids.peek()));
            assert forall|a: int, b: int|
                0 <= a < w.registry@.len() && 0 <= b < w.registry@.len() && a != b implies
                #[trigger] w.registry@[a].name@ != #[trigger] w.registry@[b].name@ by {
                assert(old_is[a].name@ != old_is[b].name@);
            }
        }
        Ok(result)
    }

    /// Removes the named item from a wedding's registry and hands it back.
    pub fn delete_registry_item(&mut self, wedding_id: u64, item_name: String) -> (r: Result<RegistryItem, Message>)
        requires
            old(self).wf(),
        ensures
            final(self).wf(),
            ({
                let ws = old(self).weddings@;
                &&& r is Err <==> (!ws.contains_key(wedding_id) || !has_item(
                    ws[wedding_id].registry@,
                    item_name@,
                ))
                &&& !ws.contains_key(wedding_id) ==> r is Err && r->Err_0 is WeddingNotFound
                &&& ws.contains_key(wedding_id) && !has_item(ws[wedding_id].registry@, item_name@) ==> r is Err
                    && r->Err_0 is Error
                &&& r is Err ==> *final(self) == *old(self)
                &&& r is Ok ==> {
                    let old_is = ws[wedding_id].registry@;
                    let w = final(self).weddings@[wedding_id];
                    let it = r->Ok_0;
                    &&& exists|i: int| #![trigger old_is[i]]
                        0 <= i < old_is.len() && old_is[i].name@ == item_name@ && it == old_is[i]
                            && w.registry@ == old_is.remove(i)
                    &&& !has_item(w.registry@, item_name@)
                    &&& replaced_wedding(*old(self), *final(self), wedding_id, w)
                    &&& w == (Wedding { registry: w.registry, ..ws[wedding_id] })
                }
            }),
    {
        let idx = match self.weddings.get(wedding_id) {
            None => {
                return Err(Message::WeddingNotFound("Wedding not found".to_string()));
            },
            Some(w) => match find_item(&w.registry, &item_name) {
                None => {
                    return Err(Message::Error("Registry item not found".to_string()));
                },
                Some(i) => i,
            },
        };
        let (pos, mut wedding) = self.weddings.checkout(wedding_id).unwrap();
        let item = wedding.registry.remove(idx);
        let ghost w = wedding;
        self.weddings.put_back(pos, wedding_id, wedding);
        assert(self.weddings.ids() =~= old(self).weddings.ids());
        proof {
            let old_is = old(self).weddings@[wedding_id].registry@;
            let i = idx as int;
            assert(self.weddings@ =~= old(self).weddings@.insert(wedding_id, w));
            assert(wedding_wf(old(self).weddings@[wedding_id], self.ids.peek()));
            assert forall|a: int, b: int|
                0 <= a < w.registry@.len() && 0 <= b < w.registry@.len() && a != b implies
                #[trigger] w.registry@[a].name@ != #[trigger] w.registry@[b].name@ by {
                let oa = if a < i { a } else { a + 1 };
                let ob = if b < i { b } else { b + 1 };
                assert(old_is[oa].name@ != old_is[ob].name@);
            }
            assert forall|a: int| 0 <= a < w.registry@.len() implies #[trigger] w.registry@[a].name@ != item_name@ by {
                let oa = if a < i { a } else { a + 1 };
                assert(old_is[oa].name@ != old_is[i].name@);
            }
        }
        Ok(item)
    }
}

} // verus!
