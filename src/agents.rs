//! The instructions and prompts of the agents that analyse alerts and answer
//! follow-up questions about them.

use vstd::prelude::*;
use crate::models::ChatMessage;

verus! {

/// The agent that writes the first analysis of an alert.
#[derive(Debug, Clone, Copy)]
pub struct AlertAnalyzer;

/// The agent that answers follow-up questions about an analysed alert.
#[derive(Debug, Clone, Copy)]
pub struct Chat;

/// The agent that writes an incident report on a suspected hijack.
#[derive(Debug, Clone, Copy)]
pub struct HijackAgent;

pub const ANALYST_PREAMBLE: &'static str = "\nYou are a BGP security analyst for busy NOC operators who need FAST, ACTIONABLE insights.\n\nCRITICAL: Use your available tools to PROACTIVELY gather enrichment data.\nThe operator should NOT need to run queries themselves - you do the lookups and include relevant \ncontext directly in your report (ownership info, ASN details, historical patterns, etc.).\n\nCOMMUNICATION RULES:\n- Be extremely concise - every word must add value\n- Lead with the most critical information\n- Assume the operator understands BGP basics\n- Focus on \"what to do\" over \"what happened\"\n- No emojis, minimal formatting\n- If tools fail, provide analysis based solely on alert data and mention tool failures briefly\n\nYour reports should take 30 seconds to read and act upon, not 5 minutes.";

pub const ANALYSIS_PROMPT_HEAD: &'static str = "Analyze this BGP alert and respond with ONLY a valid JSON object. NO markdown, NO explanations, JUST the JSON.\n\nBGP Alert:\n";

pub const ANALYSIS_PROMPT_TAIL: &'static str = "\n\nCRITICAL INSTRUCTIONS:\n1. USE YOUR TOOLS: Query WHOIS/RIPEstat for ASN ownership, prefix registration, and historical data\n2. ENRICH YOUR RESPONSE: Include context the operator would need (who owns the ASNs, legitimacy indicators, etc.)\n3. SAVE OPERATOR TIME: They should NOT need to run additional queries - you provide all relevant context\n4. BE SPECIFIC: Include actual organization names, registration details, and concrete evidence in your assessment\n\nRequired JSON structure:\n{\n  \"summary\": \"2-3 sentence executive summary with enriched context (include ASN owner names, registration status, etc.)\",\n  \"severity\": \"Critical|High|Medium|Low|Info\",\n  \"key_facts\": {\n    \"affected_prefix\": \"prefix from alert with registration owner if found\",\n    \"expected_asn\": \"expected ASN with organization name (e.g. 'AS3333 (RIPE NCC)')\",\n    \"observed_asn\": \"observed ASN with organization name (e.g. 'AS9999 (Unknown Operator)')\",\n    \"duration\": \"human readable duration from earliest to latest\",\n    \"peer_count\": number of peers (count from alert)\n  },\n  \"immediate_actions\": [\n    \"First action with specific contact info or validation method if available\",\n    \"Second action with concrete steps based on enrichment data\",\n    \"Third action informed by historical patterns or registration info\"\n  ],\n  \"risk_assessment\": \"1-2 sentence analysis informed by tool lookups (ownership conflicts, legitimacy indicators, known relationships)\",\n  \"tool_notes\": \"Brief summary of enrichment data gathered or any tool failures\"\n}\n\nEXAMPLES of enriched responses:\n- Good: \"AS9999 (Suspicious Networks Inc.) announcing prefix registered to AS3333 (RIPE NCC)\"\n- Bad: \"AS9999 announcing prefix expected from AS3333\"\n\nCRITICAL: Output ONLY valid JSON. No markdown code blocks, no extra text.";

pub const CHAT_PREAMBLE: &'static str = "\nYou are a BGP security analyst assistant helping NOC operators with follow-up questions about BGP alerts.\nYou have access to tools to gather information about IP prefixes, ASNs, and routing announcements.\nYou are answering questions about a BGP alert that has already been analyzed. Provide clear, concise answers\nbased on the original alert data and your access to current routing information.\nDo not use emojis in your responses. Use plain text formatting only.";

/// How many of the latest messages of a conversation a follow-up prompt
/// carries.
pub const RECENT_MESSAGES: usize = 15;

impl AlertAnalyzer {
    /// The prompt asking for the analysis of the alert given as JSON text.
    pub fn build_prompt(alert_json: &str) -> (r: String)
        ensures
            r@ == ANALYSIS_PROMPT_HEAD@ + alert_json@ + ANALYSIS_PROMPT_TAIL@,
    {
        crate::text::concat3(ANALYSIS_PROMPT_HEAD, alert_json, ANALYSIS_PROMPT_TAIL)
    }
}

/// The latest messages of a conversation, at most `RECENT_MESSAGES`.
pub open spec fn recent(h: Seq<ChatMessage>) -> Seq<ChatMessage> {
    if h.len() <= RECENT_MESSAGES {
        h
    } else {
        h.subrange(h.len() - RECENT_MESSAGES, h.len() as int)
    }
}

/// One line per message: its role, a colon, and its content.
pub open spec fn history_lines(h: Seq<ChatMessage>) -> Seq<char>
    decreases h.len(),
{
    if h.len() == 0 {
        Seq::empty()
    } else {
        history_lines(h.drop_last()) + h.last().role@ + ": "@ + h.last().content@ + "\n"@
    }
}

/// The conversation so far as a follow-up prompt quotes it: nothing when
/// there is none.
pub open spec fn chat_context(h: Seq<ChatMessage>) -> Seq<char> {
    if h.len() == 0 {
        Seq::empty()
    } else {
        "\n\nPrevious conversation:\n"@ + history_lines(recent(h))
    }
}

/// The text of a follow-up prompt.
pub open spec fn chat_prompt(
    alert_json: Seq<char>,
    initial_response: Seq<char>,
    history: Seq<ChatMessage>,
    question: Seq<char>,
) -> Seq<char> {
    "You are answering a follow-up question about a BGP alert that was previously analyzed.\n\nOriginal BGP Alert:\n"@
        + alert_json + "\n\nInitial Analysis Report:\n"@ + initial_response + "\n"@ + chat_context(
        history,
    ) + "\n\nUser's Question: "@ + question
        + "\n\nPlease provide a clear, concise answer to the user's question. You can use the available tools to gather additional information if needed.\nDo not use emojis - use plain text formatting only."@
}

impl Chat {
    /// The prompt for a follow-up question about an alert, quoting the alert,
    /// its first analysis and the latest messages of the conversation.
    pub fn build_prompt(
        alert_json: &str,
        initial_response: &str,
        chat_history: &Vec<ChatMessage>,
        user_question: &str,
    ) -> (r: String)
        ensures
            r@ == chat_prompt(alert_json@, initial_response@, chat_history@, user_question@),
    {
        let mut r = "You are answering a follow-up question about a BGP alert that was previously analyzed.\n\nOriginal BGP Alert:\n".to_owned();
        r.append(alert_json);
        r.append("\n\nInitial Analysis Report:\n");
        r.append(initial_response);
        r.append("\n");
        let n = chat_history.len();
        if n > 0 {
            r.append("\n\nPrevious conversation:\n");
            let start: usize = if n <= RECENT_MESSAGES { 0 } else { n - RECENT_MESSAGES };
            let ghost base = r@;
            let ghost h = chat_history@;
            let mut i: usize = start;
            while i < n
                invariant
                    start <= i <= n,
                    n == h.len(),
                    h == chat_history@,
                    recent(h) == h.subrange(start as int, n as int),
                    r@ == base + history_lines(h.subrange(start as int, i as int)),
                decreases n - i,
            {
                let m = &chat_history[i];
                r.append(m.role.as_str());
                r.append(": ");
                r.append(m.content.as_str());
                r.append("\n");
                proof {
                    assert(h.subrange(start as int, i as int + 1).drop_last() =~= h.subrange(
                        start as int,
                        i as int,
                    ));
                }
                i += 1;
            }
        }
        r.append("\n\nUser's Question: ");
        r.append(user_question);
        r.append(
            "\n\nPlease provide a clear, concise answer to the user's question. You can use the available tools to gather additional information if needed.\nDo not use emojis - use plain text formatting only.",
        );
        proof {
            if n > 0 {
                assert(recent(chat_history@) == chat_history@.subrange(
                    if n <= RECENT_MESSAGES { 0 } else { n - RECENT_MESSAGES },
                    n as int,
                ));
            }
        }
        r
    }
}

} // verus!
