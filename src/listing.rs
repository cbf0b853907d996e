use vstd::prelude::*;
use vstd::string::StrSliceExecFns;
use vstd::string::StringExecFns;

verus! {

/// `s` with two spaces put before every character that follows a line break.
pub open spec fn indented(s: Seq<char>) -> Seq<char>
    decreases s.len(),
{
    if s.len() == 0 {
        s
    } else {
        let head = indented(s.drop_last());
        if s.len() >= 2 && s[s.len() - 2] == '\n' {
            head + seq![' ', ' ', s.last()]
        } else {
            head + seq![s.last()]
        }
    }
}

/// A mapping's YAML text as an item of a YAML sequence: the first line behind
/// `- `, each later line indented by two spaces, and a final line break.
pub open spec fn list_item(s: Seq<char>) -> Seq<char> {
    if s.len() == 0 {
        s
    } else if s.last() == '\n' {
        seq!['-', ' '] + indented(s)
    } else {
        seq!['-', ' '] + indented(s) + seq!['\n']
    }
}

/// Turns the YAML text of one manifest entry into an item that can be appended
/// to a manifest file.
pub fn as_list_item(yaml: &str) -> (r: String)
    ensures
        r@ == list_item(yaml@),
{
    let n = yaml.unicode_len();
    if n == 0 {
        return String::new();
    }
    proof {
        reveal_strlit("- ");
        reveal_strlit("\n");
    }
    let mut r = String::from_str("- ");
    let mut i: usize = 0;
    while i < n
        invariant
            n == yaml@.len(),
            i <= n,
            r@ == seq!['-', ' '] + indented(yaml@.subrange(0, i as int)),
        decreases n - i,
    {
        let ghost t = yaml@.subrange(0, i as int + 1);
        proof {
            assert(t.drop_last() =~= yaml@.subrange(0, i as int));
        }
        let ghost before = r@;
        let brk = i >= 1 && yaml.get_char(i - 1) == '\n';
        if brk {
            proof {
                reveal_strlit("  ");
            }
            r.append("  ");
            assert(r@ =~= before + seq![' ', ' ']);
        }
        let ghost mid = r@;
        let c = yaml.substring_char(i, i + 1);
        assert(c@ =~= seq![t.last()]);
        r.append(c);
        proof {
            assert(brk == (t.len() >= 2 && t[t.len() - 2] == '\n'));
            if brk {
                assert(indented(t) == indented(t.drop_last()) + seq![' ', ' ', t.last()]);
                assert(r@ =~= mid + seq![t.last()]);
                assert(r@ =~= before + seq![' ', ' ', t.last()]);
            } else {
                assert(indented(t) == indented(t.drop_last()) + seq![t.last()]);
                assert(r@ =~= before + seq![t.last()]);
            }
            assert(r@ =~= seq!['-', ' '] + indented(t));
        }
        i = i + 1;
    }
    proof {
        assert(yaml@.subrange(0, n as int) =~= yaml@);
    }
    if yaml.get_char(n - 1) != '\n' {
        r.append("\n");
    }
    r
}

} // verus!
