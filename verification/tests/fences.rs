use linked_chat_bot::ai::fence::find_fences;
use linked_chat_bot::ai::AIAssistant;
use regex::Regex;

fn ours(s: &str) -> Vec<(String, String)> {
    let chars: Vec<char> = s.chars().collect();
    find_fences(&chars)
        .iter()
        .map(|f| {
            (
                chars[f.start..f.end].iter().collect::<String>(),
                chars[f.inner_start..f.inner_end].iter().collect::<String>(),
            )
        })
        .collect()
}

fn by_regex(s: &str) -> Vec<(String, String)> {
    let re = Regex::new(r"```json\s*([\s\S]*?)\s*```").unwrap();
    re.captures_iter(s)
        .map(|c| (c[0].to_string(), c.get(1).unwrap().as_str().to_string()))
        .collect()
}

fn message_by_regex(s: &str) -> String {
    let re = Regex::new(r"```json\s*([\s\S]*?)\s*```").unwrap();
    let mut message = s.to_string();
    for cap in re.captures_iter(s) {
        message = message.replace(&cap[0], "");
    }
    message.trim().to_string()
}

const CASES: &[&str] = &[
    "",
    "plain text",
    "```json{}```",
    "```json```",
    "```json\n{\"a\": 1}\n```",
    "a ```json {\"a\":1} ``` b ```json [1,2] ``` c",
    "```json\n{}\n",
    "```json {} `` ``` tail",
    "```json\t\r\n  {}  \n\t```",
    "```json\u{a0}{}\u{2003}```",
    "```jsonx {} ```",
    "``json {} ```",
    "```json ```json {} ``` ```",
    "```json {\"s\": \"```\"} ```",
    "x```json```y```json```z",
    "```json\n{}\n``````json\n[]\n```",
    "\u{3000}```json 1 ```\u{85}",
    "```json {} ``` then ```json {} ``` repeated",
    "```JSON {} ```",
    "```json    ",
    "  ```json\n```\n```",
];

#[test]
fn fences_agree_with_regex() {
    for case in CASES {
        assert_eq!(ours(case), by_regex(case), "case {:?}", case);
    }
}

#[test]
fn message_agrees_with_replace_and_trim() {
    let assistant = AIAssistant::new("k", "m");
    for case in CASES {
        let parsed = assistant.parse_response(case);
        assert_eq!(parsed.message, message_by_regex(case), "case {:?}", case);
    }
}

#[test]
fn fence_positions() {
    let s = "ab ```json {} ``` cd";
    let chars: Vec<char> = s.chars().collect();
    let fs = find_fences(&chars);
    assert_eq!(fs.len(), 1);
    assert_eq!(fs[0].start, 3);
    assert_eq!(fs[0].inner_start, 11);
    assert_eq!(fs[0].inner_end, 13);
    assert_eq!(fs[0].end, 17);
}
