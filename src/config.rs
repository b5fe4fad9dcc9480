use vstd::prelude::*;

verus! {

/// Settings of the extraction service, fixed at startup.
///
/// `task_expiration` is a number of seconds.
pub struct Config {
    pub version: String,
    pub extraction_queue: String,
    pub grobid_url: String,
    pub pdla_url: String,
    pub pdla_fast_url: String,
    pub table_ocr_url: String,
    pub task_expiration: Option<u64>,
    pub s3_bucket: String,
    pub batch_size: i32,
    pub base_url: String,
}

/// When a task created at `created_at` expires: never without an expiration
/// setting, else that many seconds later, capped at the largest time.
pub open spec fn expiry_spec(expiration: Option<u64>, created_at: u64) -> Option<u64> {
    match expiration {
        None => None,
        Some(secs) => if created_at + secs <= u64::MAX {
            Some((created_at + secs) as u64)
        } else {
            Some(u64::MAX)
        },
    }
}

impl Config {
    pub fn expires_at(&self, created_at: u64) -> (r: Option<u64>)
        ensures
            r == expiry_spec(self.task_expiration, created_at),
    {
        match self.task_expiration {
            None => None,
            Some(secs) => if secs <= u64::MAX - created_at {
                Some(created_at + secs)
            } else {
                Some(u64::MAX)
            },
        }
    }
}

} // verus!
