//! Grounded prompt assembly: every retrieved chunk is wrapped in a numbered
//! `<source …>` tag, and the system prompt asks for a citation per claim.
use vstd::prelude::*;
use crate::json::Json;
use crate::rag::types::{fields_of, CitationRef, PromptBundle, RankedChunk};
use crate::text::{chars_of, dec, decimal, extend, extend_str, string_from, string_of};

verus! {

/// The instructions that open the system prompt.
pub open spec fn preamble() -> Seq<char> {
    "You are an expert on the deploy-baba codebase. Answer the user's question using ONLY the sources provided below. Cite every claim with [source N] where N matches the source number. Do not invent information not present in the sources.\n\n"@
}

/// The tag for source number `n` with kind, path, sha and content.
pub open spec fn source_tag(n: nat, kind: Seq<char>, path: Seq<char>, sha: Seq<char>, content: Seq<char>) -> Seq<char> {
    "<source n=\""@ + dec(n) + "\" kind=\""@ + kind + "\" path=\""@ + path + "\" sha=\""@ + sha
        + "\">\n"@ + content + "\n</source>\n\n"@
}

/// The tags of all chunks, numbered from 1.
pub open spec fn sources_text(cs: Seq<(i64, i64, Seq<char>, Seq<char>, Seq<char>, i64, Seq<char>, u64)>) -> Seq<char>
    decreases cs.len(),
{
    if cs.len() == 0 {
        seq![]
    } else {
        let c = cs.last();
        sources_text(cs.drop_last()) + source_tag(cs.len(), c.2, c.3, c.4, c.6)
    }
}

/// The prompt assembler that tags each chunk as a numbered source.
pub struct DefaultPromptAssembler;

impl DefaultPromptAssembler {
    /// Wrap `chunks` in citation tags and build the prompt for `query`.
    pub fn assemble(&self, query: &str, chunks: &[RankedChunk]) -> (b: PromptBundle)
        ensures
            b.system_prompt@ == preamble() + sources_text(fields_of(chunks@)),
            b.user_message@ == query@,
            b.citations@.len() == chunks@.len(),
            forall|i: int|
                0 <= i < chunks@.len() ==> {
                    let c = #[trigger] b.citations@[i];
                    &&& c.kind@ == chunks@[i].source_kind@
                    &&& c.path@ == chunks@[i].source_path@
                    &&& c.sha@ == chunks@[i].git_sha@
                    &&& c.ord == chunks@[i].ord
                },
    {
        let mut citations: Vec<CitationRef> = Vec::new();
        let mut text: Vec<char> = chars_of(
            "You are an expert on the deploy-baba codebase. Answer the user's question using ONLY the sources provided below. Cite every claim with [source N] where N matches the source number. Do not invent information not present in the sources.\n\n",
        );
        let ghost fs = fields_of(chunks@);
        let mut i: usize = 0;
        proof {
            assert(fs.take(0) =~= Seq::empty());
            assert(text@ =~= preamble() + sources_text(fs.take(0)));
        }
        while i < chunks.len()
            invariant
                i <= chunks@.len(),
                fs == fields_of(chunks@),
                text@ == preamble() + sources_text(fs.take(i as int)),
                citations@.len() == i,
                forall|j: int|
                    0 <= j < i ==> {
                        let c = #[trigger] citations@[j];
                        &&& c.kind@ == chunks@[j].source_kind@
                        &&& c.path@ == chunks@[j].source_path@
                        &&& c.sha@ == chunks@[j].git_sha@
                        &&& c.ord == chunks@[j].ord
                    },
            decreases chunks@.len() - i,
        {
            let c = &chunks[i];
            let ghost before = text@;
            extend_str(&mut text, "<source n=\"");
            extend(&mut text, decimal((i + 1) as u64).as_slice());
            extend_str(&mut text, "\" kind=\"");
            extend_str(&mut text, c.source_kind.as_str());
            extend_str(&mut text, "\" path=\"");
            extend_str(&mut text, c.source_path.as_str());
            extend_str(&mut text, "\" sha=\"");
            extend_str(&mut text, c.git_sha.as_str());
            extend_str(&mut text, "\">\n");
            extend_str(&mut text, c.content.as_str());
            extend_str(&mut text, "\n</source>\n\n");
            proof {
                assert(fs.take(i + 1).drop_last() =~= fs.take(i as int));
                assert(fs.take(i + 1).last() == c.fields());
                assert(text@ =~= before + source_tag((i + 1) as nat, c.source_kind@, c.source_path@, c.git_sha@, c.content@));
            }
            citations.push(CitationRef {
                kind: c.source_kind.clone(),
                path: c.source_path.clone(),
                sha: c.git_sha.clone(),
                ord: c.ord,
            });
            i = i + 1;
        }
        proof {
            assert(fs.take(i as int) =~= fs);
        }
        PromptBundle {
            system_prompt: string_of(text.as_slice()),
            user_message: string_from(query),
            citations,
        }
    }
}

} // verus!
