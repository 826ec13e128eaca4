use vstd::prelude::*;
use vstd::string::StrSliceExecFns;

use crate::messages::str_eq;

verus! {

/// One bundled UI file: its name as requested over HTTP and its UTF-8
/// contents. The embedding program builds the table once from the files
/// packaged into the firmware image; the table is never mutated.
pub struct Asset {
    pub name: String,
    pub body: String,
}

/// A plain request/response answer: status code, content type, body.
pub struct HttpReply {
    pub status: u16,
    pub content_type: String,
    pub body: String,
}

/// The file-name extension: the characters after the last `.`, if the
/// name holds one.
pub open spec fn extension_of(name: Seq<char>) -> Option<Seq<char>>
    decreases name.len(),
{
    if name.len() == 0 {
        Option::None
    } else if name[name.len() - 1] == '.' {
        Option::Some(Seq::empty())
    } else {
        match extension_of(name.drop_last()) {
            Option::None => Option::None,
            Option::Some(e) => Option::Some(e.push(name[name.len() - 1])),
        }
    }
}

proof fn lemma_extension_after_last_dot(s: Seq<char>, k: int)
    requires
        0 <= k < s.len(),
        s[k] == '.',
        forall|j: int| k < j < s.len() ==> s[j] != '.',
    ensures
        extension_of(s) == Option::Some(s.subrange(k + 1, s.len() as int)),
    decreases s.len(),
{
    if k == s.len() - 1 {
        assert(s.subrange(k + 1, s.len() as int) =~= Seq::<char>::empty());
    } else {
        lemma_extension_after_last_dot(s.drop_last(), k);
        assert(s.drop_last().subrange(k + 1, s.len() - 1).push(s[s.len() - 1]) =~= s.subrange(
            k + 1,
            s.len() as int,
        ));
    }
}

proof fn lemma_extension_none(s: Seq<char>)
    requires
        forall|j: int| 0 <= j < s.len() ==> s[j] != '.',
    ensures
        extension_of(s) is None,
    decreases s.len(),
{
    if s.len() != 0 {
        lemma_extension_none(s.drop_last());
    }
}

/// The extension of `name`, as a slice of it.
fn extension_str<'a>(name: &'a str) -> (r: Option<&'a str>)
    ensures
        match r {
            Some(e) => extension_of(name@) == Option::Some(e@),
            None => extension_of(name@) is None,
        },
{
    let n = name.unicode_len();
    let mut i = n;
    while i > 0
        invariant
            i <= n,
            n == name@.len(),
            forall|j: int| i <= j < n ==> name@[j] != '.',
        decreases i,
    {
        if name.get_char(i - 1) == '.' {
            let e = name.substring_char(i, n);
            proof {
                lemma_extension_after_last_dot(name@, i - 1);
            }
            return Some(e);
        }
        i = i - 1;
    }
    proof {
        lemma_extension_none(name@);
    }
    None
}

/// The content type served for a given extension: the three types the UI
/// bundle uses, and `text/plain` for everything else, a missing extension
/// included.
pub open spec fn content_type_of(ext: Option<Seq<char>>) -> Seq<char> {
    match ext {
        Option::Some(e) => if e == "html"@ {
            "text/html"@
        } else if e == "css"@ {
            "text/css"@
        } else if e == "js"@ {
            "text/javascript"@
        } else {
            "text/plain"@
        },
        Option::None => "text/plain"@,
    }
}

/// The content type for a file name, per its extension.
pub fn content_type_for(name: &str) -> (r: String)
    ensures
        r@ == content_type_of(extension_of(name@)),
{
    match extension_str(name) {
        Some(e) => {
            if str_eq(e, "html") {
                "text/html".to_owned()
            } else if str_eq(e, "css") {
                "text/css".to_owned()
            } else if str_eq(e, "js") {
                "text/javascript".to_owned()
            } else {
                "text/plain".to_owned()
            }
        },
        None => "text/plain".to_owned(),
    }
}

/// The first asset whose name is `name`, if any.
pub open spec fn lookup_spec(assets: Seq<Asset>, name: Seq<char>) -> Option<Asset>
    decreases assets.len(),
{
    if assets.len() == 0 {
        Option::None
    } else if assets[0].name@ == name {
        Option::Some(assets[0])
    } else {
        lookup_spec(assets.drop_first(), name)
    }
}

/// A lookup misses exactly when no asset in the table bears the name.
pub proof fn lemma_lookup_none_iff(assets: Seq<Asset>, name: Seq<char>)
    ensures
        lookup_spec(assets, name) is None <==> forall|i: int|
            0 <= i < assets.len() ==> assets[i].name@ != name,
    decreases assets.len(),
{
    if assets.len() != 0 && assets[0].name@ != name {
        let rest = assets.drop_first();
        lemma_lookup_none_iff(rest, name);
        if lookup_spec(rest, name) is None {
            assert forall|i: int| 0 <= i < assets.len() implies assets[i].name@ != name by {
                if i >= 1 {
                    assert(rest[i - 1] == assets[i]);
                }
            }
        } else {
            let j = choose|j: int| 0 <= j < rest.len() && rest[j].name@ == name;
            assert(assets[j + 1].name@ == name);
        }
    }
}

/// Serves one static-asset request: the named file's contents under the
/// content type its extension calls for, or a plain-text not-found answer
/// when the table holds no file of that name.
pub fn get_path(assets: &Vec<Asset>, path: &str) -> (r: HttpReply)
    ensures
        match lookup_spec(assets@, path@) {
            Option::Some(a) => {
                &&& r.status == 200
                &&& r.content_type@ == content_type_of(extension_of(a.name@))
                &&& r.body@ == a.body@
            },
            Option::None => {
                &&& r.status == 404
                &&& r.content_type@ == "text/plain"@
                &&& r.body@ == "Not Found"@
            },
        },
{
    let n = assets.len();
    let mut i: usize = 0;
    proof {
        assert(assets@.skip(0) =~= assets@);
    }
    while i < n
        invariant
            i <= n,
            n == assets@.len(),
            lookup_spec(assets@, path@) == lookup_spec(assets@.skip(i as int), path@),
        decreases n - i,
    {
        proof {
            assert(assets@.skip(i as int)[0] == assets@[i as int]);
            assert(assets@.skip(i as int).drop_first() =~= assets@.skip(i + 1));
        }
        if str_eq(assets[i].name.as_str(), path) {
            let content_type = content_type_for(assets[i].name.as_str());
            return HttpReply { status: 200, content_type, body: assets[i].body.clone() };
        }
        i = i + 1;
    }
    proof {
        assert(assets@.skip(n as int) =~= Seq::<Asset>::empty());
    }
    HttpReply {
        status: 404,
        content_type: "text/plain".to_owned(),
        body: "Not Found".to_owned(),
    }
}

/// Serves the root path: the same handler with the fixed default asset
/// name.
pub fn get_index(assets: &Vec<Asset>) -> (r: HttpReply)
    ensures
        match lookup_spec(assets@, "index.html"@) {
            Option::Some(a) => {
                &&& r.status == 200
                &&& r.content_type@ == content_type_of(extension_of(a.name@))
                &&& r.body@ == a.body@
            },
            Option::None => {
                &&& r.status == 404
                &&& r.content_type@ == "text/plain"@
                &&& r.body@ == "Not Found"@
            },
        },
{
    get_path(assets, "index.html")
}

} // verus!
