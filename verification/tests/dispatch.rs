use mcp_server_rust::codec::{parse, to_string};
use mcp_server_rust::json::{Json, JsonNumber};
use mcp_server_rust::prompts::code_review_prompt::CodeReviewPrompt;
use mcp_server_rust::resources::config_resource::ConfigResource;
use mcp_server_rust::tools::calculator_tool::CalculatorTool;
use mcp_server_rust::tools::greeting_tool::GreetingTool;
use mcp_server_rust::tools::weather_tool::WeatherTool;
use mcp_server_rust::tools::{CallToolResult, Tool, ToolHandler};
use mcp_server_rust::{Error, McpServer, ServerConfig, PROTOCOL_VERSION};

enum TestTool {
    Greeting(GreetingTool),
    Weather(WeatherTool),
    Calculator(CalculatorTool),
    Fixed(String),
    Failing,
}

fn number(n: &JsonNumber) -> f64 {
    match n {
        JsonNumber::PosInt(u) => *u as f64,
        JsonNumber::NegInt(i) => *i as f64,
        JsonNumber::Float(x) => x.as_f64().unwrap(),
    }
}

fn body_mass_index(arguments: &Json) -> Result<CallToolResult, Error> {
    let (weight, height) = CalculatorTool::arguments(arguments)?;
    let (weight, height) = (number(&weight), number(&height));
    if height <= 0.0 {
        return Ok(CalculatorTool::result(None));
    }
    Ok(CalculatorTool::result(Some(&format!("{:.2}", weight / (height * height)))))
}

impl ToolHandler for TestTool {
    fn call(&self, arguments: Json) -> Result<CallToolResult, Error> {
        match self {
            TestTool::Greeting(tool) => tool.call(arguments),
            TestTool::Weather(tool) => tool.call(arguments),
            TestTool::Calculator(_) => body_mass_index(&arguments),
            TestTool::Fixed(text) => Ok(CallToolResult::text(text)),
            TestTool::Failing => Err(Error::ToolError("it broke".to_string())),
        }
    }

    fn definition(&self) -> Tool {
        match self {
            TestTool::Greeting(tool) => tool.definition(),
            TestTool::Weather(tool) => tool.definition(),
            TestTool::Calculator(_) => CalculatorTool::tool_definition(),
            TestTool::Fixed(_) => GreetingTool::tool_definition(),
            TestTool::Failing => GreetingTool::tool_definition(),
        }
    }
}

type Server = McpServer<TestTool, ConfigResource, CodeReviewPrompt>;

fn server() -> Server {
    let mut server = McpServer::new(ServerConfig::new("RustMcpServer", "1.0.0"));
    server.register_tool("greet".to_string(), TestTool::Greeting(GreetingTool::new())).unwrap();
    server
        .register_tool("calculate-bmi".to_string(), TestTool::Calculator(CalculatorTool::new()))
        .unwrap();
    server.register_tool("fetch-weather".to_string(), TestTool::Weather(WeatherTool::new())).unwrap();
    server.register_resource("config://".to_string(), ConfigResource::new()).unwrap();
    server.register_prompt("review-code".to_string(), CodeReviewPrompt::new()).unwrap();
    server
}

fn ask(server: &mut Server, text: &str) -> Option<String> {
    let message = parse(text).unwrap();
    server.handle_request(message).unwrap().map(|answer| to_string(&answer).unwrap())
}

fn answer(server: &mut Server, text: &str) -> Json {
    server.handle_request(parse(text).unwrap()).unwrap().expect("no answer")
}

fn code_of(answer: &Json) -> i64 {
    match answer.get("error").and_then(|e| e.get("code")) {
        Some(Json::Number(JsonNumber::NegInt(code))) => *code,
        _ => panic!("no code"),
    }
}

fn message_of(answer: &Json) -> String {
    answer.get("error").and_then(|e| e.get_str("message")).expect("no message").to_string()
}

fn first_text(answer: &Json) -> String {
    match answer.get("result").and_then(|r| r.get("content")) {
        Some(Json::Array(items)) => items[0].get_str("text").unwrap().to_string(),
        _ => panic!("no content"),
    }
}

#[test]
fn a_request_is_answered_under_its_id() {
    let mut server = server();
    for id in ["1", "-7", "\"abc\"", "1.5", "null", "[1]", "{\"a\":1}", "true"] {
        let text = format!("{{\"jsonrpc\":\"2.0\",\"id\":{id},\"method\":\"ping\"}}");
        assert_eq!(
            ask(&mut server, &text),
            Some(format!("{{\"id\":{id},\"jsonrpc\":\"2.0\",\"result\":{{}}}}"))
        );
    }
}

#[test]
fn a_failed_request_is_answered_under_its_id() {
    let mut server = server();
    for id in ["1", "\"abc\"", "null"] {
        let text = format!("{{\"jsonrpc\":\"2.0\",\"id\":{id},\"method\":\"nope\"}}");
        let answer = answer(&mut server, &text);
        assert_eq!(to_string(answer.get("id").unwrap()).unwrap(), id);
        assert!(answer.get("result").is_none());
        assert_eq!(code_of(&answer), -32601);
    }
}

#[test]
fn a_notification_is_never_answered() {
    let mut server = server();
    let notifications = [
        "{\"jsonrpc\":\"2.0\",\"method\":\"ping\"}",
        "{\"jsonrpc\":\"2.0\",\"method\":\"initialized\"}",
        "{\"jsonrpc\":\"2.0\",\"method\":\"unknown/method\"}",
        "{\"jsonrpc\":\"2.0\",\"method\":\"tools/call\"}",
        "{\"jsonrpc\":\"2.0\",\"method\":\"tools/call\",\"params\":{\"name\":\"greet\",\"arguments\":{\"name\":\"A\"}}}",
        "{\"jsonrpc\":\"2.0\",\"method\":\"tools/call\",\"params\":{\"name\":\"greet\"}}",
        "{\"jsonrpc\":\"1.0\",\"method\":\"ping\"}",
        "{\"method\":\"ping\"}",
        "{\"jsonrpc\":\"2.0\"}",
        "{}",
        "[]",
        "1",
    ];
    for text in notifications {
        assert_eq!(ask(&mut server, text), None, "{text}");
    }
}

#[test]
fn an_unknown_method_is_not_found() {
    let mut server = server();
    let answer = answer(&mut server, "{\"jsonrpc\":\"2.0\",\"id\":1,\"method\":\"unknown/method\"}");
    assert_eq!(code_of(&answer), -32601);
    assert_eq!(message_of(&answer), "Method not found: unknown/method");
    assert_eq!(
        to_string(&answer).unwrap(),
        "{\"error\":{\"code\":-32601,\"message\":\"Method not found: unknown/method\"},\"id\":1,\"jsonrpc\":\"2.0\"}"
    );
}

#[test]
fn method_names_are_case_sensitive() {
    let mut server = server();
    for method in ["Ping", "PING", "ping ", "tools/List", "tools", ""] {
        let text = format!("{{\"jsonrpc\":\"2.0\",\"id\":1,\"method\":\"{method}\"}}");
        assert_eq!(code_of(&answer(&mut server, &text)), -32601, "{method}");
    }
}

#[test]
fn a_message_that_is_no_envelope_is_an_invalid_request() {
    let mut server = server();
    let cases = [
        ("{\"id\":1,\"method\":\"ping\"}", "Invalid request: Missing jsonrpc field"),
        ("{\"jsonrpc\":2.0,\"id\":1,\"method\":\"ping\"}", "Invalid request: Missing jsonrpc field"),
        ("{\"jsonrpc\":\"1.0\",\"id\":1,\"method\":\"ping\"}", "Invalid request: Invalid jsonrpc version"),
        ("{\"jsonrpc\":\"2.00\",\"id\":1,\"method\":\"ping\"}", "Invalid request: Invalid jsonrpc version"),
        ("{\"jsonrpc\":\"2.0\",\"id\":1}", "Invalid request: Missing method"),
        ("{\"jsonrpc\":\"2.0\",\"id\":1,\"method\":7}", "Invalid request: Missing method"),
        ("{\"jsonrpc\":\"2.0\",\"id\":1,\"method\":null}", "Invalid request: Missing method"),
    ];
    for (text, message) in cases {
        let answer = answer(&mut server, text);
        assert_eq!(code_of(&answer), -32600, "{text}");
        assert_eq!(message_of(&answer), message, "{text}");
        assert!(matches!(answer.get("id"), Some(Json::Number(JsonNumber::PosInt(1)))));
        assert!(answer.get("error").unwrap().get("data").is_none());
    }
}

#[test]
fn the_version_is_checked_before_the_method() {
    let mut server = server();
    let answer = answer(&mut server, "{\"jsonrpc\":\"3\",\"id\":1}");
    assert_eq!(message_of(&answer), "Invalid request: Invalid jsonrpc version");
}

#[test]
fn initialize_tells_what_the_server_is() {
    let mut server = server();
    assert!(!server.is_initialized());
    let text = ask(&mut server, "{\"jsonrpc\":\"2.0\",\"id\":1,\"method\":\"initialize\",\"params\":{}}");
    assert_eq!(PROTOCOL_VERSION, "2024-11-05");
    assert_eq!(
        text.unwrap(),
        "{\"id\":1,\"jsonrpc\":\"2.0\",\"result\":{\"capabilities\":{\"prompts\":{},\"resources\":{},\"tools\":{}},\"protocolVersion\":\"2024-11-05\",\"serverInfo\":{\"name\":\"RustMcpServer\",\"version\":\"1.0.0\"}}}"
    );
    assert!(server.is_initialized());
}

#[test]
fn only_initialize_sets_the_flag() {
    let mut server = server();
    ask(&mut server, "{\"jsonrpc\":\"2.0\",\"id\":1,\"method\":\"ping\"}");
    ask(&mut server, "{\"jsonrpc\":\"2.0\",\"id\":1,\"method\":\"initialized\"}");
    ask(&mut server, "{\"jsonrpc\":\"2.0\",\"id\":1,\"method\":\"tools/list\"}");
    ask(&mut server, "{\"jsonrpc\":\"1.0\",\"id\":1,\"method\":\"initialize\"}");
    assert!(!server.is_initialized());
    assert_eq!(ask(&mut server, "{\"jsonrpc\":\"2.0\",\"method\":\"initialize\"}"), None);
    assert!(server.is_initialized());
    ask(&mut server, "{\"jsonrpc\":\"2.0\",\"id\":1,\"method\":\"ping\"}");
    assert!(server.is_initialized());
}

#[test]
fn methods_work_before_initialize() {
    let mut server = server();
    let answer = answer(
        &mut server,
        "{\"jsonrpc\":\"2.0\",\"id\":1,\"method\":\"tools/call\",\"params\":{\"name\":\"greet\",\"arguments\":{\"name\":\"Ada\"}}}",
    );
    assert_eq!(first_text(&answer), "Hello, Ada! Welcome to MCP.");
    assert!(!server.is_initialized());
}

#[test]
fn initialized_and_ping_answer_with_the_empty_object() {
    let mut server = server();
    for method in ["initialized", "ping"] {
        let text = format!("{{\"jsonrpc\":\"2.0\",\"id\":\"x\",\"method\":\"{method}\"}}");
        assert_eq!(
            ask(&mut server, &text),
            Some("{\"id\":\"x\",\"jsonrpc\":\"2.0\",\"result\":{}}".to_string())
        );
    }
}

#[test]
fn calculate_bmi_divides_the_weight_by_the_square_of_the_height() {
    let mut server = server();
    let answer = answer(
        &mut server,
        "{\"jsonrpc\":\"2.0\",\"id\":1,\"method\":\"tools/call\",\"params\":{\"name\":\"calculate-bmi\",\"arguments\":{\"weightKg\":70,\"heightM\":1.75}}}",
    );
    assert!(answer.get("error").is_none());
    assert!(first_text(&answer).contains("BMI: 22.86"));
    assert_eq!(first_text(&answer), "BMI: 22.86");
    assert!(matches!(
        answer.get("result").unwrap().get("isError"),
        Some(Json::Bool(false))
    ));
}

#[test]
fn calculate_bmi_reports_a_height_that_is_not_positive_as_its_own_error() {
    let mut server = server();
    for height in ["-1", "0", "-0.5", "0.0"] {
        let text = format!(
            "{{\"jsonrpc\":\"2.0\",\"id\":1,\"method\":\"tools/call\",\"params\":{{\"name\":\"calculate-bmi\",\"arguments\":{{\"weightKg\":70,\"heightM\":{height}}}}}}}"
        );
        let answer = answer(&mut server, &text);
        assert!(answer.get("error").is_none(), "{height}");
        assert!(matches!(answer.get("result").unwrap().get("isError"), Some(Json::Bool(true))));
        assert_eq!(first_text(&answer), "Height must be positive");
    }
}

#[test]
fn calculate_bmi_wants_two_numbers() {
    let mut server = server();
    let cases = [
        ("{}", "Invalid params: Missing or invalid 'weightKg'"),
        ("{\"heightM\":1}", "Invalid params: Missing or invalid 'weightKg'"),
        ("{\"weightKg\":\"70\",\"heightM\":1}", "Invalid params: Missing or invalid 'weightKg'"),
        ("{\"weightKg\":70}", "Invalid params: Missing or invalid 'heightM'"),
        ("{\"weightKg\":70,\"heightM\":null}", "Invalid params: Missing or invalid 'heightM'"),
    ];
    for (arguments, message) in cases {
        let text = format!(
            "{{\"jsonrpc\":\"2.0\",\"id\":1,\"method\":\"tools/call\",\"params\":{{\"name\":\"calculate-bmi\",\"arguments\":{arguments}}}}}"
        );
        let answer = answer(&mut server, &text);
        assert_eq!(code_of(&answer), -32602, "{arguments}");
        assert_eq!(message_of(&answer), message);
    }
}

#[test]
fn tools_call_wants_params_and_a_name() {
    let mut server = server();
    let cases = [
        ("{\"jsonrpc\":\"2.0\",\"id\":1,\"method\":\"tools/call\"}", "Invalid params: Missing params"),
        ("{\"jsonrpc\":\"2.0\",\"id\":1,\"method\":\"tools/call\",\"params\":{}}", "Invalid params: Missing tool name"),
        ("{\"jsonrpc\":\"2.0\",\"id\":1,\"method\":\"tools/call\",\"params\":{\"name\":1}}", "Invalid params: Missing tool name"),
        ("{\"jsonrpc\":\"2.0\",\"id\":1,\"method\":\"tools/call\",\"params\":[]}", "Invalid params: Missing tool name"),
        ("{\"jsonrpc\":\"2.0\",\"id\":1,\"method\":\"tools/call\",\"params\":null}", "Invalid params: Missing tool name"),
    ];
    for (text, message) in cases {
        let answer = answer(&mut server, text);
        assert_eq!(code_of(&answer), -32602, "{text}");
        assert_eq!(message_of(&answer), message, "{text}");
    }
}

#[test]
fn arguments_that_are_not_given_are_the_empty_object() {
    let mut server = server();
    let answer = answer(
        &mut server,
        "{\"jsonrpc\":\"2.0\",\"id\":1,\"method\":\"tools/call\",\"params\":{\"name\":\"greet\"}}",
    );
    assert_eq!(code_of(&answer), -32602);
    assert_eq!(message_of(&answer), "Invalid params: Missing 'name' parameter");
}

#[test]
fn a_tool_that_is_not_bound_is_not_found() {
    let mut server = server();
    let answer = answer(
        &mut server,
        "{\"jsonrpc\":\"2.0\",\"id\":1,\"method\":\"tools/call\",\"params\":{\"name\":\"nope\",\"arguments\":{}}}",
    );
    assert_eq!(code_of(&answer), -32601);
    assert_eq!(message_of(&answer), "Method not found: Tool not found: nope");
}

#[test]
fn a_failure_of_a_handler_is_an_internal_error_with_its_words() {
    let mut server = server();
    server.register_tool("broken".to_string(), TestTool::Failing).unwrap();
    let answer = answer(
        &mut server,
        "{\"jsonrpc\":\"2.0\",\"id\":9,\"method\":\"tools/call\",\"params\":{\"name\":\"broken\"}}",
    );
    assert_eq!(code_of(&answer), -32603);
    assert_eq!(message_of(&answer), "Tool error: it broke");
    assert!(answer.get("result").is_none());
}

#[test]
fn a_name_that_is_registered_again_reaches_only_the_new_handler() {
    let mut server = server();
    let call = "{\"jsonrpc\":\"2.0\",\"id\":1,\"method\":\"tools/call\",\"params\":{\"name\":\"greet\",\"arguments\":{\"name\":\"Ada\"}}}";
    assert_eq!(first_text(&answer(&mut server, call)), "Hello, Ada! Welcome to MCP.");
    server.register_tool("greet".to_string(), TestTool::Fixed("first".to_string())).unwrap();
    assert_eq!(first_text(&answer(&mut server, call)), "first");
    server.register_tool("greet".to_string(), TestTool::Fixed("second".to_string())).unwrap();
    assert_eq!(first_text(&answer(&mut server, call)), "second");
    assert_eq!(first_text(&answer(&mut server, call)), "second");
    let weather = "{\"jsonrpc\":\"2.0\",\"id\":1,\"method\":\"tools/call\",\"params\":{\"name\":\"fetch-weather\",\"arguments\":{\"city\":\"Rome\"}}}";
    assert!(first_text(&answer(&mut server, weather)).starts_with("Weather for Rome:\n"));
}

#[test]
fn registering_a_bound_name_keeps_the_number_of_tools() {
    let mut server = server();
    let list = "{\"jsonrpc\":\"2.0\",\"id\":1,\"method\":\"tools/list\"}";
    let names = |answer: &Json| -> Vec<String> {
        match answer.get("result").and_then(|r| r.get("tools")) {
            Some(Json::Array(items)) => {
                items.iter().map(|t| t.get_str("name").unwrap().to_string()).collect()
            }
            _ => panic!("no tools"),
        }
    };
    assert_eq!(names(&answer(&mut server, list)), ["greet", "calculate-bmi", "fetch-weather"]);
    server.register_tool("greet".to_string(), TestTool::Fixed("x".to_string())).unwrap();
    assert_eq!(names(&answer(&mut server, list)), ["greet", "calculate-bmi", "fetch-weather"]);
    server.register_tool("other".to_string(), TestTool::Fixed("x".to_string())).unwrap();
    assert_eq!(
        names(&answer(&mut server, list)),
        ["greet", "calculate-bmi", "fetch-weather", "other"]
    );
}

#[test]
fn a_listed_tool_can_be_called_under_the_name_it_is_listed_by() {
    let mut server = server();
    server.register_tool("hello".to_string(), TestTool::Greeting(GreetingTool::new())).unwrap();
    let listing = answer(&mut server, "{\"jsonrpc\":\"2.0\",\"id\":1,\"method\":\"tools/list\"}");
    let tools = match listing.get("result").and_then(|r| r.get("tools")) {
        Some(Json::Array(items)) => items.clone(),
        _ => panic!("no tools"),
    };
    assert_eq!(tools.len(), 4);
    assert_eq!(tools[3].get_str("name"), Some("hello"));
    assert_eq!(tools[3].get_str("description"), Some("Greets a person with a friendly message"));
    for tool in &tools {
        let name = tool.get_str("name").unwrap();
        let text = format!(
            "{{\"jsonrpc\":\"2.0\",\"id\":1,\"method\":\"tools/call\",\"params\":{{\"name\":\"{name}\"}}}}"
        );
        assert_ne!(code_of(&answer(&mut server, &text)), -32601, "{name}");
    }
}

#[test]
fn tools_list_of_a_server_without_tools_is_empty() {
    let mut server: Server = McpServer::new(ServerConfig::new("s", "1"));
    assert_eq!(
        ask(&mut server, "{\"jsonrpc\":\"2.0\",\"id\":1,\"method\":\"tools/list\"}"),
        Some("{\"id\":1,\"jsonrpc\":\"2.0\",\"result\":{\"tools\":[]}}".to_string())
    );
    assert_eq!(
        ask(&mut server, "{\"jsonrpc\":\"2.0\",\"id\":1,\"method\":\"resources/list\"}"),
        Some("{\"id\":1,\"jsonrpc\":\"2.0\",\"result\":{\"resources\":[]}}".to_string())
    );
    assert_eq!(
        ask(&mut server, "{\"jsonrpc\":\"2.0\",\"id\":1,\"method\":\"prompts/list\"}"),
        Some("{\"id\":1,\"jsonrpc\":\"2.0\",\"result\":{\"prompts\":[]}}".to_string())
    );
}

#[test]
fn the_config_resource_is_read_as_json_text() {
    let mut server = server();
    let answer = answer(
        &mut server,
        "{\"jsonrpc\":\"2.0\",\"id\":1,\"method\":\"resources/read\",\"params\":{\"uri\":\"config://app\"}}",
    );
    let contents = match answer.get("result").and_then(|r| r.get("contents")) {
        Some(Json::Array(items)) => items.clone(),
        _ => panic!("no contents"),
    };
    assert_eq!(contents.len(), 1);
    assert_eq!(contents[0].get_str("mimeType"), Some("application/json"));
    assert_eq!(contents[0].get_str("uri"), Some("config://app"));
    assert!(contents[0].get("blob").is_none());
    assert!(contents[0].get("size").is_none());
    let text = contents[0].get_str("text").unwrap();
    assert!(text.contains("\"appName\""));
    let config = parse(text).unwrap();
    assert_eq!(config.get_str("appName"), Some("Rust MCP Server"));
    assert_eq!(config.get_str("version"), Some("1.0.0"));
    assert_eq!(config.get_str("environment"), Some("development"));
    assert!(matches!(config.get("features").unwrap().get("tools"), Some(Json::Bool(true))));
}

#[test]
fn resources_read_wants_a_uri_that_a_bound_name_begins() {
    let mut server = server();
    let cases = [
        ("{\"jsonrpc\":\"2.0\",\"id\":1,\"method\":\"resources/read\"}", -32602, "Invalid params: Missing params"),
        ("{\"jsonrpc\":\"2.0\",\"id\":1,\"method\":\"resources/read\",\"params\":{}}", -32602, "Invalid params: Missing resource URI"),
        ("{\"jsonrpc\":\"2.0\",\"id\":1,\"method\":\"resources/read\",\"params\":{\"uri\":5}}", -32602, "Invalid params: Missing resource URI"),
        ("{\"jsonrpc\":\"2.0\",\"id\":1,\"method\":\"resources/read\",\"params\":{\"uri\":\"other://x\"}}", -32601, "Method not found: Resource not found: other://x"),
        ("{\"jsonrpc\":\"2.0\",\"id\":1,\"method\":\"resources/read\",\"params\":{\"uri\":\"config:/\"}}", -32601, "Method not found: Resource not found: config:/"),
    ];
    for (text, code, message) in cases {
        let answer = answer(&mut server, text);
        assert_eq!(code_of(&answer), code, "{text}");
        assert_eq!(message_of(&answer), message, "{text}");
    }
}

#[test]
fn resources_list_shows_what_the_handlers_give_of_themselves() {
    let mut server = server();
    assert_eq!(
        ask(&mut server, "{\"jsonrpc\":\"2.0\",\"id\":1,\"method\":\"resources/list\"}"),
        Some("{\"id\":1,\"jsonrpc\":\"2.0\",\"result\":{\"resources\":[{\"description\":\"Current application configuration\",\"mimeType\":\"application/json\",\"name\":\"Application Configuration\",\"uri\":\"config://app\"}]}}".to_string())
    );
}

#[test]
fn prompts_list_shows_the_review_prompt() {
    let mut server = server();
    assert_eq!(
        ask(&mut server, "{\"jsonrpc\":\"2.0\",\"id\":1,\"method\":\"prompts/list\"}"),
        Some("{\"id\":1,\"jsonrpc\":\"2.0\",\"result\":{\"prompts\":[{\"arguments\":[{\"description\":\"The code snippet to review\",\"name\":\"code\",\"required\":true},{\"description\":\"Optional area of focus for the review (performance, security, style, general)\",\"name\":\"focus\",\"required\":false}],\"description\":\"Generates a prompt to ask the LLM to review code\",\"name\":\"review-code\"}]}}".to_string())
    );
}

#[test]
fn prompts_get_fills_the_template_in() {
    let mut server = server();
    let answer = answer(
        &mut server,
        "{\"jsonrpc\":\"2.0\",\"id\":1,\"method\":\"prompts/get\",\"params\":{\"name\":\"review-code\",\"arguments\":{\"code\":\"x = 1\",\"focus\":\"style\"}}}",
    );
    assert_eq!(
        to_string(answer.get("result").unwrap()).unwrap(),
        "{\"description\":\"Requesting style review for code snippet\",\"messages\":[{\"content\":[{\"text\":\"Please review the following code for potential issues and suggest improvements, focusing specifically on style:\\n\\n```\\nx = 1\\n```\",\"type\":\"text\"}],\"role\":\"user\"}]}"
    );
}

#[test]
fn prompts_get_wants_params_a_name_and_arguments() {
    let mut server = server();
    let cases = [
        ("{\"jsonrpc\":\"2.0\",\"id\":1,\"method\":\"prompts/get\"}", -32602, "Invalid params: Missing params"),
        ("{\"jsonrpc\":\"2.0\",\"id\":1,\"method\":\"prompts/get\",\"params\":{}}", -32602, "Invalid params: Missing prompt name"),
        ("{\"jsonrpc\":\"2.0\",\"id\":1,\"method\":\"prompts/get\",\"params\":{\"name\":\"nope\"}}", -32601, "Method not found: Prompt not found: nope"),
        ("{\"jsonrpc\":\"2.0\",\"id\":1,\"method\":\"prompts/get\",\"params\":{\"name\":\"review-code\"}}", -32602, "Invalid params: Missing arguments"),
        ("{\"jsonrpc\":\"2.0\",\"id\":1,\"method\":\"prompts/get\",\"params\":{\"name\":\"review-code\",\"arguments\":{}}}", -32602, "Invalid params: Missing 'code' argument"),
    ];
    for (text, code, message) in cases {
        let answer = answer(&mut server, text);
        assert_eq!(code_of(&answer), code, "{text}");
        assert_eq!(message_of(&answer), message, "{text}");
    }
}

#[test]
fn a_prompt_that_is_registered_again_is_replaced() {
    let mut server = server();
    server.register_prompt("review-code".to_string(), CodeReviewPrompt::new()).unwrap();
    server.register_resource("config://".to_string(), ConfigResource::new()).unwrap();
    let prompts = answer(&mut server, "{\"jsonrpc\":\"2.0\",\"id\":1,\"method\":\"prompts/list\"}");
    assert!(matches!(
        prompts.get("result").unwrap().get("prompts"),
        Some(Json::Array(items)) if items.len() == 1
    ));
    let resources = answer(&mut server, "{\"jsonrpc\":\"2.0\",\"id\":1,\"method\":\"resources/list\"}");
    assert!(matches!(
        resources.get("result").unwrap().get("resources"),
        Some(Json::Array(items)) if items.len() == 1
    ));
}
