//! The place to work in: a bucket and an optional key prefix, as written on
//! the command line.

use crate::error::{begins_with, has_prefix};
use vstd::prelude::*;
use vstd::string::StrSliceExecFns;

verus! {

/// A bucket and the prefix under which its objects are listed.
#[derive(Debug)]
pub struct Location {
    pub bucket: String,
    pub prefix: String,
}

/// The scheme that may stand before the bucket's name.
pub open spec fn scheme() -> Seq<char> {
    seq!['s', '3', ':', '/', '/']
}

/// `text` without any scheme at its start.
pub open spec fn without_scheme(text: Seq<char>) -> Seq<char>
    decreases text.len(),
{
    if begins_with(text, scheme()) {
        without_scheme(text.skip(5))
    } else {
        text
    }
}

/// Whether `head` is what stands in `text` before its first slash.
pub open spec fn is_bucket_of(head: Seq<char>, text: Seq<char>) -> bool {
    &&& head.len() <= text.len()
    &&& head == text.take(head.len() as int)
    &&& forall|k: int| 0 <= k < head.len() ==> head[k] != '/'
    &&& head.len() == text.len() || text[head.len() as int] == '/'
}

/// What follows the first slash after a bucket name of length `cut`;
/// nothing where there is no slash.
pub open spec fn tail_of(text: Seq<char>, cut: int) -> Seq<char> {
    if cut < text.len() {
        text.skip(cut + 1)
    } else {
        Seq::empty()
    }
}

/// Whether `kept` is `tail` without the slashes at its end.
pub open spec fn is_trimmed(kept: Seq<char>, tail: Seq<char>) -> bool {
    &&& kept.len() <= tail.len()
    &&& kept == tail.take(kept.len() as int)
    &&& forall|k: int| kept.len() <= k < tail.len() ==> tail[k] == '/'
    &&& kept.len() == 0 || kept.last() != '/'
}

impl Location {
    /// Reads a location: any scheme at the start is dropped, the bucket is
    /// what stands before the first slash, and the prefix is what follows
    /// it, without the slashes at its end.
    pub fn parse(arg: &str) -> (r: Location)
        ensures
            is_bucket_of(r.bucket@, without_scheme(arg@)),
            is_trimmed(r.prefix@, tail_of(without_scheme(arg@), r.bucket@.len() as int)),
    {
        let n = arg.unicode_len();
        let mut start: usize = 0;
        proof {
            reveal_strlit("s3://");
            assert("s3://"@ =~= scheme());
            assert(arg@.skip(0) =~= arg@);
        }
        while n - start >= 5 && has_prefix(arg.substring_char(start, n), "s3://")
            invariant
                start <= n,
                n == arg@.len(),
                "s3://"@ == scheme(),
                without_scheme(arg@) == without_scheme(arg@.skip(start as int)),
            decreases n - start,
        {
            proof {
                assert(arg@.subrange(start as int, n as int) =~= arg@.skip(start as int));
                assert(arg@.skip(start as int).skip(5) =~= arg@.skip(start + 5));
            }
            start += 5;
        }
        proof {
            assert(arg@.subrange(start as int, n as int) =~= arg@.skip(start as int));
            assert(!begins_with(arg@.skip(start as int), scheme()));
        }
        let ghost rest = arg@.skip(start as int);
        let mut cut: usize = start;
        while cut < n && arg.get_char(cut) != '/'
            invariant
                start <= cut <= n,
                n == arg@.len(),
                forall|k: int| start <= k < cut ==> arg@[k] != '/',
            decreases n - cut,
        {
            cut += 1;
        }
        let bucket = arg.substring_char(start, cut).to_owned();
        proof {
            assert(bucket@ =~= rest.take(cut - start));
        }
        if cut == n {
            let prefix = String::new();
            proof {
                assert(prefix@ =~= tail_of(rest, bucket@.len() as int).take(0));
            }
            return Location { bucket, prefix };
        }
        let mut end: usize = n;
        while end > cut + 1 && arg.get_char(end - 1) == '/'
            invariant
                cut + 1 <= end <= n,
                n == arg@.len(),
                forall|k: int| end <= k < n ==> arg@[k] == '/',
            decreases end,
        {
            end -= 1;
        }
        let prefix = arg.substring_char(cut + 1, end).to_owned();
        proof {
            let tail = tail_of(rest, bucket@.len() as int);
            assert(tail =~= arg@.skip(cut + 1));
            assert(prefix@ =~= tail.take(prefix@.len() as int));
        }
        Location { bucket, prefix }
    }

    /// The prefix to list under, if any: an empty prefix lists the whole
    /// bucket.
    pub fn listing_prefix(&self) -> (r: Option<String>)
        ensures
            self.prefix@.len() == 0 ==> r is None,
            self.prefix@.len() > 0 ==> r is Some && r.unwrap()@ == self.prefix@,
    {
        if self.prefix.as_str().unicode_len() == 0 {
            None
        } else {
            Some(self.prefix.clone())
        }
    }
}

} // verus!
