//! Loading kernel modules from a file descriptor: what `finit_module`
//! does with the bytes it read before the image goes to the loader.

use vstd::prelude::*;
use crate::net_types::ENOSYS_CHIRHO;

verus! {

/// The most `finit_module` reads of a module image (4 MiB).
pub const MAX_KO_SIZE_CHIRHO: usize = 4194304;

/// `finit_module(2)`, given the buffer the read filled and what the read
/// returned: `-ENOSYS` when it read nothing or failed, else the image,
/// which is the buffer cut to the bytes read (the loader takes it from
/// there).
pub fn sys_finit_module_chirho(ko_buf_chirho: Vec<u8>, bytes_read_chirho: i64) -> (r: Result<Vec<u8>, i64>)
    ensures
        bytes_read_chirho <= 0 ==> (r matches Err(e) && e == -ENOSYS_CHIRHO),
        bytes_read_chirho > 0 ==> (r matches Ok(img) && img@ == (if bytes_read_chirho <= ko_buf_chirho@.len() {
            ko_buf_chirho@.subrange(0, bytes_read_chirho as int) } else { ko_buf_chirho@ })),
{
    if bytes_read_chirho <= 0 {
        return Err(-ENOSYS_CHIRHO);
    }
    let mut img_chirho = ko_buf_chirho;
    if bytes_read_chirho as u64 <= img_chirho.len() as u64 {
        img_chirho.truncate(bytes_read_chirho as usize);
    }
    Ok(img_chirho)
}

} // verus!
