use vstd::prelude::*;
use vstd::string::*;

verus! {

/// The suffix that marks a compressed file.
pub open spec fn gz_suffix() -> Seq<char> {
    seq!['.', 'g', 'z']
}

pub open spec fn has_gz_suffix(p: Seq<char>) -> bool {
    p.len() >= 3 && p.subrange(p.len() - 3, p.len() as int) == gz_suffix()
}

/// The file that compression writes: the target with the suffix appended.
pub open spec fn compressed_path(p: Seq<char>) -> Seq<char> {
    p + gz_suffix()
}

/// The file that decompression writes: the target with one trailing
/// suffix removed, or the target itself when it has none.
pub open spec fn decompressed_path(p: Seq<char>) -> Seq<char> {
    if has_gz_suffix(p) {
        p.subrange(0, p.len() - 3)
    } else {
        p
    }
}

/// Appends the compressed-file suffix to a target path.
pub fn compressed_target(target: &str) -> (r: String)
    ensures
        r@ == compressed_path(target@),
{
    proof {
        reveal_strlit(".gz");
    }
    let r = target.to_owned().concat(".gz");
    assert(".gz"@ =~= gz_suffix());
    r
}

/// Removes one trailing compressed-file suffix from a target path, if present.
pub fn decompressed_target(target: &str) -> (r: String)
    ensures
        r@ == decompressed_path(target@),
{
    let n = target.unicode_len();
    if n >= 3 && target.get_char(n - 3) == '.' && target.get_char(n - 2) == 'g'
        && target.get_char(n - 1) == 'z' {
        let r = target.substring_char(0, n - 3).to_owned();
        assert(target@.subrange(n - 3, n as int) =~= gz_suffix());
        r
    } else {
        target.to_owned()
    }
}

/// Stripping the suffix undoes appending it: a path that went through
/// compression comes back unchanged through decompression.
pub proof fn lemma_paths_round_trip(p: Seq<char>)
    ensures
        decompressed_path(compressed_path(p)) == p,
{
    let c = compressed_path(p);
    assert(c.subrange(c.len() - 3, c.len() as int) =~= gz_suffix());
    assert(c.subrange(0, c.len() - 3) =~= p);
}

} // verus!
