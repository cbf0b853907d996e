use vstd::prelude::*;
use vstd::string::StrSliceExecFns;
use vstd::string::StringExecFns;

verus! {

/// The suffix that marks an encrypted file.
pub open spec fn alp_suffix() -> Seq<char> {
    seq!['.', 'a', 'l', 'p']
}

/// Where encryption moves a file: the extension `E` becomes `E.alp`, and a name
/// without extension gains `.alp`; either way `.alp` is appended.
pub open spec fn encrypted_path_of(p: Seq<char>) -> Seq<char> {
    p + alp_suffix()
}

/// Whether the file name (the text after the last `/`) has the extension `alp`:
/// it ends in `.alp` and something other than a separator stands before that.
pub open spec fn has_alp_extension(p: Seq<char>) -> bool {
    p.len() >= 5 && p.subrange(p.len() - 4, p.len() as int) == alp_suffix() && p[p.len() - 5] != '/'
}

/// Where decryption leaves a file: an `alp` extension is stripped; any other
/// path is written in place.
pub open spec fn decrypted_path_of(p: Seq<char>) -> Seq<char> {
    if has_alp_extension(p) {
        p.subrange(0, p.len() - 4)
    } else {
        p
    }
}

/// The path that an encrypted file is renamed to.
pub fn encrypted_path(p: &str) -> (r: String)
    ensures
        r@ == encrypted_path_of(p@),
{
    let mut r = String::from_str(p);
    proof {
        reveal_strlit(".alp");
    }
    r.append(".alp");
    r
}

/// The path that a decrypted file is written to; equal to `p` when no rename happens.
pub fn decrypted_path(p: &str) -> (r: String)
    ensures
        r@ == decrypted_path_of(p@),
{
    let len = p.unicode_len();
    if len >= 5 && p.get_char(len - 4) == '.' && p.get_char(len - 3) == 'a'
        && p.get_char(len - 2) == 'l' && p.get_char(len - 1) == 'p' && p.get_char(len - 5) != '/' {
        proof {
            assert(p@.subrange(len - 4, len as int) =~= alp_suffix());
        }
        String::from_str(p.substring_char(0, len - 4))
    } else {
        proof {
            if len >= 5 && p@.subrange(len - 4, len as int) == alp_suffix() {
                assert(p@.subrange(len - 4, len as int)[0] == p@[len - 4]);
                assert(p@.subrange(len - 4, len as int)[1] == p@[len - 3]);
                assert(p@.subrange(len - 4, len as int)[2] == p@[len - 2]);
                assert(p@.subrange(len - 4, len as int)[3] == p@[len - 1]);
            }
        }
        String::from_str(p)
    }
}

/// Decryption undoes the rename of encryption for any path that names a file
/// (it is not empty and does not end in a separator).
pub proof fn lemma_decrypt_inverts_encrypt_path(p: Seq<char>)
    requires
        p.len() > 0,
        p.last() != '/',
    ensures
        decrypted_path_of(encrypted_path_of(p)) == p,
{
    let e = encrypted_path_of(p);
    assert(e.subrange(e.len() - 4, e.len() as int) =~= alp_suffix());
    assert(e[e.len() - 5] == p.last());
    assert(e.subrange(0, e.len() - 4) =~= p);
}

} // verus!
