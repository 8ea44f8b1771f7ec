//! Round-tripping page metadata through its URL query-string form.

use vstd::prelude::*;

use crate::errors::ApiError;
use crate::models::commons::PageMetadata;
use crate::strutil::{
    i64_to_string, int_digits, parse_i64, parse_i64_spec, split_char, split_str, str_eq,
};

verus! {

/// The query string a page is addressed by.
pub open spec fn page_url_string(m: PageMetadata) -> Seq<char> {
    "limit="@.add(int_digits(m.limit as int)).add("&offset="@).add(int_digits(m.offset as int))
}

/// The effect of one `key=value` query segment on the accumulated page
/// metadata: `limit` and `offset` segments overwrite their field with the
/// parsed value (zero when missing or unparsable), anything else is
/// ignored.
pub open spec fn apply_segment(acc: PageMetadata, seg: Seq<char>) -> PageMetadata {
    let parts = split_char(seg, '=');
    let v: i64 = if parts.len() > 1 {
        match parse_i64_spec(parts[1]) {
            Some(x) => x,
            None => 0,
        }
    } else {
        0
    };
    if parts[0] == "limit"@ {
        PageMetadata { limit: v, offset: acc.offset }
    } else if parts[0] == "offset"@ {
        PageMetadata { limit: acc.limit, offset: v }
    } else {
        acc
    }
}

/// Applies every segment in order; the last occurrence of a key wins.
pub open spec fn apply_segments(acc: PageMetadata, segs: Seq<Seq<char>>) -> PageMetadata
    decreases segs.len(),
{
    if segs.len() == 0 {
        acc
    } else {
        apply_segments(apply_segment(acc, segs[0]), segs.skip(1))
    }
}

/// The page metadata a query string denotes: fields start at zero and the
/// `&`-separated segments are applied in order.
pub open spec fn page_meta_of(s: Seq<char>) -> PageMetadata {
    apply_segments(PageMetadata { limit: 0, offset: 0 }, split_char(s, '&'))
}

/// Folding one more segment onto the end.
proof fn lemma_apply_segments_snoc(acc: PageMetadata, segs: Seq<Seq<char>>, seg: Seq<char>)
    ensures
        apply_segments(acc, segs.push(seg)) == apply_segment(apply_segments(acc, segs), seg),
    decreases segs.len(),
{
    if segs.len() == 0 {
        assert(segs.push(seg)[0] == seg);
        assert(segs.push(seg).skip(1) =~= Seq::<Seq<char>>::empty());
        assert(apply_segments(apply_segment(acc, seg), Seq::<Seq<char>>::empty())
            == apply_segment(acc, seg));
        assert(apply_segments(acc, segs.push(seg)) == apply_segments(
            apply_segment(acc, segs.push(seg)[0]),
            segs.push(seg).skip(1),
        ));
        assert(apply_segments(acc, segs) == acc);
    } else {
        assert(segs.push(seg)[0] == segs[0]);
        assert(segs.push(seg).skip(1) =~= segs.skip(1).push(seg));
        lemma_apply_segments_snoc(apply_segment(acc, segs[0]), segs.skip(1), seg);
        assert(apply_segments(acc, segs.push(seg)) == apply_segments(
            apply_segment(acc, segs[0]),
            segs.skip(1).push(seg),
        ));
        assert(apply_segments(acc, segs) == apply_segments(
            apply_segment(acc, segs[0]),
            segs.skip(1),
        ));
    }
}

impl PageMetadata {
    /// Renders the page address as its query string.
    pub fn to_url_string(&self) -> (r: String)
        ensures
            r@ == page_url_string(*self),
    {
        let r = "limit=".to_owned().concat(i64_to_string(self.limit).as_str()).concat(
            "&offset=",
        ).concat(i64_to_string(self.offset).as_str());
        proof {
            assert(r@ =~= page_url_string(*self));
        }
        r
    }

    /// Reads a page address back from its query string. Unknown keys are
    /// ignored and missing or unparsable values read as zero, so every
    /// input yields a page.
    pub fn from_url_string(encoded: &str) -> (r: Result<Self, ApiError>)
        ensures
            r matches Ok(m) && m == page_meta_of(encoded@),
    {
        let segments = split_str(encoded, '&');
        let ghost segs = split_char(encoded@, '&');
        let mut output = PageMetadata { limit: 0, offset: 0 };
        let n = segments.len();
        let mut i: usize = 0;
        while i < n
            invariant
                n == segments@.len(),
                i <= n,
                segments@.map_values(|t: String| t@) =~= segs,
                output == apply_segments(PageMetadata { limit: 0, offset: 0 }, segs.take(i as int)),
            decreases n - i,
        {
            let parts = split_str(segments[i].as_str(), '=');
            let ghost seg = segs[i as int];
            proof {
                assert(segments@[i as int]@ == seg);
                crate::strutil::lemma_split_char_len(seg, '=');
                assert(parts@.map_values(|t: String| t@) =~= split_char(seg, '='));
                assert(parts@[0]@ == split_char(seg, '=')[0]);
            }
            let value: i64 = if parts.len() > 1 {
                proof {
                    assert(parts@[1]@ == split_char(seg, '=')[1]);
                }
                match parse_i64(parts[1].as_str()) {
                    Some(x) => x,
                    None => 0,
                }
            } else {
                0
            };
            if str_eq(parts[0].as_str(), "limit") {
                output.limit = value;
            } else if str_eq(parts[0].as_str(), "offset") {
                output.offset = value;
            }
            proof {
                assert(segs.take(i + 1).drop_last() =~= segs.take(i as int));
                assert(segs.take(i + 1) =~= segs.take(i as int).push(seg));
                lemma_apply_segments_snoc(
                    PageMetadata { limit: 0, offset: 0 },
                    segs.take(i as int),
                    seg,
                );
            }
            i += 1;
        }
        proof {
            assert(segs.take(n as int) =~= segs);
        }
        Ok(output)
    }
}

} // verus!
