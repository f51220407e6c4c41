//! Finding a loaded module by its full path.
use vstd::prelude::*;

use crate::wide::wide_eq;

verus! {

/// The name read for `m` does not match `module`.
pub open spec fn read_other(file_name: impl Fn(u64) -> Option<Vec<u16>>, m: u64, module: Seq<u16>) -> bool {
    exists|p: Vec<u16>| p@ != module && #[trigger] file_name.ensures((m,), Some(p))
}

/// The names of the first `k` modules were read and none matched.
pub open spec fn none_of_first(file_name: impl Fn(u64) -> Option<Vec<u16>>, modules: Seq<u64>, k: int, module: Seq<u16>) -> bool {
    forall|i: int| 0 <= i < k ==> read_other(file_name, #[trigger] modules[i], module)
}

/// The name read for `m` matches `module`.
pub open spec fn read_same(file_name: impl Fn(u64) -> Option<Vec<u16>>, m: u64, module: Seq<u16>) -> bool {
    exists|p: Vec<u16>| p@ == module && #[trigger] file_name.ensures((m,), Some(p))
}

/// The first of `modules` whose file name reads as `module`, reading file
/// names in order with `file_name` (which gives `None` when a name cannot
/// be read). The search gives up at the first unreadable name. The match is
/// on the full path, not on the file name alone.
#[allow(non_snake_case)]
pub fn GetModuleBaseEx(module: &[u16], modules: &[u64], file_name: &impl Fn(u64) -> Option<Vec<u16>>) -> (r: Option<u64>)
    requires
        forall|m: u64| file_name.requires((m,)),
    ensures
        r matches Some(m) ==> exists|k: int| 0 <= k < modules@.len() && modules@[k] == m && read_same(*file_name, m, module@)
            && forall|i: int| 0 <= i < k ==> read_other(*file_name, #[trigger] modules@[i], module@),
        r is None ==> none_of_first(*file_name, modules@, modules@.len() as int, module@)
            || exists|k: int| 0 <= k < modules@.len() && #[trigger] none_of_first(*file_name, modules@, k, module@)
                && file_name.ensures((modules@[k],), None),
{
    let mut i: usize = 0;
    while i < modules.len()
        invariant
            i <= modules@.len(),
            forall|m: u64| file_name.requires((m,)),
            forall|j: int| 0 <= j < i ==> read_other(*file_name, #[trigger] modules@[j], module@),
        decreases modules@.len() - i,
    {
        let m = modules[i];
        let name = file_name(m);
        match name {
            None => {
                assert(file_name.ensures((modules@[i as int],), None));
                assert(none_of_first(*file_name, modules@, i as int, module@));
                return None;
            },
            Some(p) => {
                if wide_eq(p.as_slice(), module) {
                    assert(read_same(*file_name, m, module@));
                    return Some(m);
                }
                assert(read_other(*file_name, modules@[i as int], module@));
            },
        }
        i = i + 1;
    }
    assert(none_of_first(*file_name, modules@, modules@.len() as int, module@));
    None
}

} // verus!
