//! How a server reads the query of a URL.
use crate::builders::awx::{
    decoded_bytes, is_query_char, percent_encoded, percent_encoding_reads_back,
    percent_encoding_stays_in_alphabet, query_text,
};
use vstd::prelude::*;
use vstd::utf8::encode_utf8;

verus! {

/// The place behind the last `?` or `&` of `s`, or 0 where there is none.
pub open spec fn last_param_start(s: Seq<char>) -> int
    decreases s.len(),
{
    if s.len() == 0 || s.last() == '?' || s.last() == '&' {
        s.len() as int
    } else {
        last_param_start(s.drop_last())
    }
}

/// The place of the first `=` of `s`, or its end where there is none.
pub open spec fn name_end(s: Seq<char>, i: int) -> int
    decreases s.len() - i,
{
    if 0 <= i < s.len() && s[i] != '=' {
        name_end(s, i + 1)
    } else {
        i
    }
}

/// One parameter: what stands before the first `=` is its name, what stands behind it its value.
pub open spec fn read_param(s: Seq<char>) -> (Seq<u8>, Seq<u8>) {
    let end = name_end(s, 0);
    (decoded_bytes(s.take(end)), decoded_bytes(s.skip(end + 1)))
}

/// The parameters of a query.
pub open spec fn read_query(s: Seq<char>) -> Seq<(Seq<u8>, Seq<u8>)>
    decreases s.len(),
{
    let start = last_param_start(s);
    if start <= 0 || start > s.len() {
        seq![]
    } else {
        read_query(s.take(start - 1)).push(read_param(s.skip(start)))
    }
}

/// The bytes of names and values.
pub open spec fn param_bytes(params: Seq<(Seq<char>, Seq<char>)>) -> Seq<(Seq<u8>, Seq<u8>)> {
    Seq::new(params.len(), |i: int| (encode_utf8(params[i].0), encode_utf8(params[i].1)))
}

/// Text that holds neither of the characters by which parameters are set apart.
pub open spec fn no_separator(s: Seq<char>) -> bool {
    forall|i: int| 0 <= i < s.len() ==> #[trigger] s[i] != '?' && s[i] != '&'
}

proof fn last_param_found(front: Seq<char>, param: Seq<char>)
    requires
        no_separator(param),
        front.len() > 0,
        front.last() == '?' || front.last() == '&',
    ensures
        last_param_start(front + param) == front.len(),
    decreases param.len(),
{
    let all = front + param;
    if param.len() == 0 {
        assert(all =~= front);
    } else {
        assert(all.last() == param[param.len() - 1]);
        assert(all.drop_last() =~= front + param.drop_last());
        let shorter = param.drop_last();
        assert forall|i: int| 0 <= i < shorter.len() implies #[trigger] shorter[i] != '?'
            && shorter[i] != '&' by {
            assert(shorter[i] == param[i]);
        }
        last_param_found(front, param.drop_last());
    }
}

proof fn name_found(name: Seq<char>, rest: Seq<char>, i: int)
    requires
        0 <= i <= name.len(),
        forall|j: int| 0 <= j < name.len() ==> #[trigger] name[j] != '=',
    ensures
        name_end(name.push('=') + rest, i) == name.len(),
    decreases name.len() - i,
{
    let all = name.push('=') + rest;
    if i < name.len() {
        assert(all[i] == name[i]);
        name_found(name, rest, i + 1);
    } else {
        assert(all[i] == '=');
    }
}

proof fn query_chars_are_no_marks(c: char)
    requires
        is_query_char(c),
    ensures
        c != '?' && c != '&' && c != '=',
{
}

/// A server that reads the query of a call gets exactly the parameters that were given, each
/// with its name and its value, whatever characters they hold.
pub proof fn query_reads_back(params: Seq<(Seq<char>, Seq<char>)>)
    ensures
        read_query(query_text(params)) == param_bytes(params),
    decreases params.len(),
{
    if params.len() == 0 {
        assert(read_query(query_text(params)) =~= param_bytes(params));
    } else {
        reveal_strlit("?");
        reveal_strlit("&");
        reveal_strlit("=");
        let front = query_text(params.drop_last());
        let sep = if params.len() == 1 {
            "?"@
        } else {
            "&"@
        };
        let name = percent_encoded(params.last().0);
        let value = percent_encoded(params.last().1);
        let param = name.push('=') + value;
        let all = query_text(params);
        percent_encoding_stays_in_alphabet(params.last().0);
        percent_encoding_stays_in_alphabet(params.last().1);
        assert forall|i: int| 0 <= i < name.len() implies #[trigger] name[i] != '=' by {
            query_chars_are_no_marks(name[i]);
        }
        assert forall|i: int| 0 <= i < param.len() implies #[trigger] param[i] != '?' && param[i]
            != '&' by {
            if i < name.len() {
                query_chars_are_no_marks(name[i]);
            } else if i > name.len() {
                assert(param[i] == value[i - name.len() - 1]);
                query_chars_are_no_marks(value[i - name.len() - 1]);
            }
        }
        assert(all =~= (front + sep) + param);
        last_param_found(front + sep, param);
        let start = last_param_start(all);
        assert(all.take(start - 1) =~= front);
        assert(all.skip(start) =~= param);
        name_found(name, value, 0);
        assert(param.take(name.len() as int) =~= name);
        assert(param.skip(name.len() as int + 1) =~= value);
        percent_encoding_reads_back(params.last().0);
        percent_encoding_reads_back(params.last().1);
        query_reads_back(params.drop_last());
        assert(param_bytes(params) =~= param_bytes(params.drop_last()).push(
            (encode_utf8(params.last().0), encode_utf8(params.last().1)),
        ));
    }
}

} // verus!
