use mcp_server_rust::codec::{parse, to_string};
use mcp_server_rust::json::{Json, JsonNumber};
use mcp_server_rust::prompts::code_review_prompt::CodeReviewPrompt;
use mcp_server_rust::prompts::{GetPromptResult, Message, MessageContent, Prompt, PromptArgument, PromptHandler};
use mcp_server_rust::resources::config_resource::ConfigResource;
use mcp_server_rust::resources::file_resource::FileResource;
use mcp_server_rust::resources::{Resource, ResourceDescriptor, ResourceHandler, ResourceReadResult};
use mcp_server_rust::tools::calculator_tool::CalculatorTool;
use mcp_server_rust::tools::greeting_tool::GreetingTool;
use mcp_server_rust::tools::weather_tool::WeatherTool;
use mcp_server_rust::tools::{CallToolResult, TextContent, Tool, ToolHandler};
use mcp_server_rust::utils::error::ErrorKind;
use std::path::PathBuf;

#[test]
fn text_content_is_of_type_text() {
    let content = TextContent::new("hi");
    assert_eq!(content.content_type, "text");
    assert_eq!(content.text, "hi");
    assert_eq!(to_string(&content.to_json()).unwrap(), "{\"text\":\"hi\",\"type\":\"text\"}");
    let message = MessageContent::new("");
    assert_eq!(message.content_type, "text");
    assert_eq!(message.text, "");
    assert_eq!(to_string(&message.to_json()).unwrap(), "{\"text\":\"\",\"type\":\"text\"}");
}

#[test]
fn a_successful_result_has_the_flag_unset() {
    let result = CallToolResult::success(vec![TextContent::new("a"), TextContent::new("b")]);
    assert_eq!(result.is_error, Some(false));
    assert_eq!(result.content.len(), 2);
    assert_eq!(result.content[1].text, "b");
    assert_eq!(
        to_string(&result.to_json()).unwrap(),
        "{\"content\":[{\"text\":\"a\",\"type\":\"text\"},{\"text\":\"b\",\"type\":\"text\"}],\"isError\":false}"
    );
    let empty = CallToolResult::success(vec![]);
    assert_eq!(to_string(&empty.to_json()).unwrap(), "{\"content\":[],\"isError\":false}");
}

#[test]
fn an_error_result_has_the_flag_set_and_one_text() {
    let result = CallToolResult::error("bad");
    assert_eq!(result.is_error, Some(true));
    assert_eq!(result.content.len(), 1);
    assert_eq!(result.content[0].text, "bad");
    assert_eq!(result.content[0].content_type, "text");
    assert_eq!(
        to_string(&result.to_json()).unwrap(),
        "{\"content\":[{\"text\":\"bad\",\"type\":\"text\"}],\"isError\":true}"
    );
}

#[test]
fn a_result_without_a_flag_is_written_without_one() {
    let result = CallToolResult { content: vec![], is_error: None };
    assert_eq!(to_string(&result.to_json()).unwrap(), "{\"content\":[]}");
}

#[test]
fn greet_wants_a_name_that_is_a_string() {
    let tool = GreetingTool::new();
    let hello = tool.call(parse("{\"name\":\"World\"}").unwrap()).unwrap();
    assert_eq!(hello.content[0].text, "Hello, World! Welcome to MCP.");
    assert_eq!(hello.is_error, Some(false));
    let empty = tool.call(parse("{\"name\":\"\"}").unwrap()).unwrap();
    assert_eq!(empty.content[0].text, "Hello, ! Welcome to MCP.");
    for arguments in ["{}", "{\"name\":1}", "{\"Name\":\"a\"}", "[]", "null", "\"name\""] {
        let error = GreetingTool::default().call(parse(arguments).unwrap()).unwrap_err();
        assert_eq!(error.kind(), ErrorKind::InvalidParams);
        assert_eq!(error.detail(), "Missing 'name' parameter");
    }
}

#[test]
fn the_greeting_tool_describes_itself() {
    let tool: Tool = GreetingTool::tool_definition();
    assert_eq!(tool.name, "greet");
    assert_eq!(tool.description, "Greets a person with a friendly message");
    assert_eq!(
        to_string(&tool.to_json()).unwrap(),
        "{\"annotations\":{\"readOnlyHint\":true,\"title\":\"Greet Tool\"},\"description\":\"Greets a person with a friendly message\",\"inputSchema\":{\"properties\":{\"name\":{\"description\":\"The name of the person to greet\",\"type\":\"string\"}},\"required\":[\"name\"],\"type\":\"object\"},\"name\":\"greet\"}"
    );
    assert_eq!(GreetingTool::new().definition().name, "greet");
}

#[test]
fn the_calculator_describes_itself() {
    let tool = CalculatorTool::tool_definition();
    assert_eq!(tool.name, "calculate-bmi");
    assert_eq!(
        to_string(&tool.to_json()).unwrap(),
        "{\"annotations\":{\"readOnlyHint\":true,\"title\":\"BMI Calculator\"},\"description\":\"Calculates Body Mass Index from weight and height\",\"inputSchema\":{\"properties\":{\"heightM\":{\"description\":\"Height in meters\",\"minimum\":0.1,\"type\":\"number\"},\"weightKg\":{\"description\":\"Weight in kilograms\",\"type\":\"number\"}},\"required\":[\"weightKg\",\"heightM\"],\"type\":\"object\"},\"name\":\"calculate-bmi\"}"
    );
}

#[test]
fn the_weather_tool_describes_itself() {
    let tool = WeatherTool::tool_definition();
    assert_eq!(tool.name, "fetch-weather");
    assert_eq!(
        to_string(&tool.to_json()).unwrap(),
        "{\"annotations\":{\"openWorldHint\":true,\"readOnlyHint\":true,\"title\":\"Fetch Weather\"},\"description\":\"Fetches weather information for a given city\",\"inputSchema\":{\"properties\":{\"city\":{\"description\":\"The city name\",\"type\":\"string\"}},\"required\":[\"city\"],\"type\":\"object\"},\"name\":\"fetch-weather\"}"
    );
    assert_eq!(WeatherTool::default().definition().name, "fetch-weather");
}

#[test]
fn a_tool_without_annotations_is_written_without_them() {
    let tool = Tool {
        name: "t".to_string(),
        description: "d".to_string(),
        input_schema: Json::empty_object(),
        annotations: None,
    };
    assert_eq!(
        to_string(&tool.to_json()).unwrap(),
        "{\"description\":\"d\",\"inputSchema\":{},\"name\":\"t\"}"
    );
    let renamed = tool.named("u");
    assert_eq!(renamed.name, "u");
    assert_eq!(renamed.description, "d");
}

#[test]
fn the_calculator_reads_its_two_arguments() {
    let (weight, height) =
        CalculatorTool::arguments(&parse("{\"weightKg\":70,\"heightM\":-2}").unwrap()).unwrap();
    assert!(matches!(weight, JsonNumber::PosInt(70)));
    assert!(matches!(height, JsonNumber::NegInt(-2)));
    let (_, height) =
        CalculatorTool::arguments(&parse("{\"weightKg\":70.5,\"heightM\":1.75}").unwrap()).unwrap();
    match height {
        JsonNumber::Float(n) => assert_eq!(n.as_f64(), Some(1.75)),
        _ => panic!("no float"),
    }
    let error = CalculatorTool::arguments(&parse("{\"weightKg\":true}").unwrap()).unwrap_err();
    assert_eq!(error.message(), "Invalid params: Missing or invalid 'weightKg'");
    let error = CalculatorTool::arguments(&parse("{\"weightKg\":1,\"heightM\":\"2\"}").unwrap())
        .unwrap_err();
    assert_eq!(error.message(), "Invalid params: Missing or invalid 'heightM'");
    let _ = CalculatorTool::default();
}

#[test]
fn the_calculator_frames_what_the_division_came_to() {
    let result = CalculatorTool::result(Some("22.86"));
    assert_eq!(result.is_error, Some(false));
    assert_eq!(result.content.len(), 1);
    assert_eq!(result.content[0].text, "BMI: 22.86");
    let result = CalculatorTool::result(None);
    assert_eq!(result.is_error, Some(true));
    assert_eq!(result.content[0].text, "Height must be positive");
}

#[test]
fn the_weather_is_the_same_everywhere() {
    let result = WeatherTool::new().call(parse("{\"city\":\"Oslo\"}").unwrap()).unwrap();
    assert_eq!(result.is_error, Some(false));
    assert_eq!(
        result.content[0].text,
        "Weather for Oslo:\n{\n  \"city\": \"Oslo\",\n  \"condition\": \"Partly Cloudy\",\n  \"humidity\": \"65%\",\n  \"temperature\": \"72\u{b0}F\",\n  \"windSpeed\": \"10 mph\"\n}"
    );
    let error = WeatherTool::new().call(parse("{\"city\":7}").unwrap()).unwrap_err();
    assert_eq!(error.message(), "Invalid params: Missing 'city' parameter");
}

#[test]
fn the_config_resource_serves_any_uri_it_is_asked_for() {
    let resource = ConfigResource::new();
    let result: ResourceReadResult = resource.read("config://anything").unwrap();
    assert_eq!(result.contents.len(), 1);
    let content: &Resource = &result.contents[0];
    assert_eq!(content.uri, "config://anything");
    assert_eq!(content.mime_type, "application/json");
    assert_eq!(content.blob, None);
    assert_eq!(content.size, None);
    assert_eq!(
        content.text.as_deref(),
        Some("{\n  \"appName\": \"Rust MCP Server\",\n  \"environment\": \"development\",\n  \"features\": {\n    \"prompts\": true,\n    \"resources\": true,\n    \"tools\": true\n  },\n  \"version\": \"1.0.0\"\n}")
    );
    let descriptor: ResourceDescriptor = ConfigResource::default().definition();
    assert_eq!(descriptor.uri, "config://app");
    assert_eq!(descriptor.name, "Application Configuration");
    assert_eq!(descriptor.description, "Current application configuration");
    assert_eq!(descriptor.mime_type, "application/json");
}

#[test]
fn a_resource_is_written_with_the_members_it_has() {
    let resource = Resource {
        uri: "u".to_string(),
        mime_type: "m".to_string(),
        text: None,
        blob: Some("YQ==".to_string()),
        size: Some(1),
    };
    assert_eq!(
        to_string(&resource.to_json()).unwrap(),
        "{\"blob\":\"YQ==\",\"mimeType\":\"m\",\"size\":1,\"uri\":\"u\"}"
    );
    let text = Resource::of_text("u", "text/plain", "t".to_string());
    assert_eq!(
        to_string(&ResourceReadResult::single(text).to_json()).unwrap(),
        "{\"contents\":[{\"mimeType\":\"text/plain\",\"text\":\"t\",\"uri\":\"u\"}]}"
    );
    assert_eq!(
        to_string(&ResourceReadResult { contents: vec![] }.to_json()).unwrap(),
        "{\"contents\":[]}"
    );
}

#[test]
fn a_file_uri_names_what_follows_the_data_directory() {
    assert_eq!(FileResource::file_name("file:///data/a.txt").unwrap(), "a.txt");
    assert_eq!(FileResource::file_name("file:///data/sub/b.json").unwrap(), "sub/b.json");
    assert_eq!(FileResource::file_name("file:///data/").unwrap(), "");
    for uri in ["file:///data", "file://data/a.txt", "config://app", "", " file:///data/a"] {
        let error = FileResource::file_name(uri).unwrap_err();
        assert_eq!(error.kind(), ErrorKind::ResourceError);
        assert_eq!(error.message(), format!("Resource error: Invalid URI: {uri}"));
    }
}

#[test]
fn the_type_of_a_file_goes_by_the_end_of_its_name() {
    assert_eq!(FileResource::mime_type("a.txt"), "text/plain");
    assert_eq!(FileResource::mime_type(".txt"), "text/plain");
    assert_eq!(FileResource::mime_type("a.json"), "application/json");
    assert_eq!(FileResource::mime_type("a.json.txt"), "text/plain");
    assert_eq!(FileResource::mime_type("a.txt.json"), "application/json");
    assert_eq!(FileResource::mime_type("a.TXT"), "application/octet-stream");
    assert_eq!(FileResource::mime_type("txt"), "application/octet-stream");
    assert_eq!(FileResource::mime_type(""), "application/octet-stream");
    assert_eq!(FileResource::mime_type("a.bin"), "application/octet-stream");
}

#[test]
fn what_was_read_from_a_file_becomes_the_one_content() {
    let result =
        FileResource::outcome("file:///data/a.json", "a.json", Ok("{}".to_string())).unwrap();
    assert_eq!(result.contents.len(), 1);
    assert_eq!(result.contents[0].uri, "file:///data/a.json");
    assert_eq!(result.contents[0].mime_type, "application/json");
    assert_eq!(result.contents[0].text.as_deref(), Some("{}"));
    assert_eq!(result.contents[0].blob, None);
    assert_eq!(result.contents[0].size, None);
    let error = FileResource::outcome("file:///data/a.txt", "a.txt", Err("gone".to_string()))
        .unwrap_err();
    assert_eq!(error.kind(), ErrorKind::ResourceError);
    assert_eq!(error.code(), -32603);
    assert_eq!(error.message(), "Resource error: Failed to read file: gone");
    assert_eq!(
        FileResource::access_denied().message(),
        "Resource error: Access denied: Path traversal attempt"
    );
}

#[test]
fn a_file_resource_keeps_its_directory() {
    let resource = FileResource::new(PathBuf::from("/srv/data"));
    assert_eq!(resource.base_dir(), &PathBuf::from("/srv/data"));
}

#[test]
fn the_review_prompt_describes_itself() {
    let prompt: Prompt = CodeReviewPrompt::prompt_definition();
    assert_eq!(prompt.name, "review-code");
    assert_eq!(prompt.description, "Generates a prompt to ask the LLM to review code");
    let arguments: Vec<PromptArgument> = prompt.arguments.unwrap();
    assert_eq!(arguments.len(), 2);
    assert_eq!(arguments[0].name, "code");
    assert_eq!(arguments[0].description, "The code snippet to review");
    assert_eq!(arguments[0].required, Some(true));
    assert_eq!(arguments[1].name, "focus");
    assert_eq!(arguments[1].required, Some(false));
    assert_eq!(CodeReviewPrompt::default().definition().name, "review-code");
}

#[test]
fn a_prompt_without_arguments_is_written_without_them() {
    let prompt = Prompt { name: "p".to_string(), description: "d".to_string(), arguments: None };
    assert_eq!(to_string(&prompt.to_json()).unwrap(), "{\"description\":\"d\",\"name\":\"p\"}");
    let argument =
        PromptArgument { name: "a".to_string(), description: "b".to_string(), required: None };
    assert_eq!(to_string(&argument.to_json()).unwrap(), "{\"description\":\"b\",\"name\":\"a\"}");
    let prompt = Prompt {
        name: "p".to_string(),
        description: "d".to_string(),
        arguments: Some(vec![]),
    };
    assert_eq!(prompt.named("q").name, "q");
}

#[test]
fn the_review_prompt_asks_for_a_general_review_by_default() {
    let prompt = CodeReviewPrompt::new();
    let result: GetPromptResult = prompt.get(Some(parse("{\"code\":\"fn f() {}\"}").unwrap())).unwrap();
    assert_eq!(result.description.as_deref(), Some("Requesting general review for code snippet"));
    assert_eq!(result.messages.len(), 1);
    let message: &Message = &result.messages[0];
    assert_eq!(message.role, "user");
    assert_eq!(message.content.len(), 1);
    assert_eq!(message.content[0].content_type, "text");
    assert_eq!(
        message.content[0].text,
        "Please review the following code for potential issues and suggest improvements:\n\n```\nfn f() {}\n```"
    );
    let same = prompt
        .get(Some(parse("{\"code\":\"fn f() {}\",\"focus\":\"general\"}").unwrap()))
        .unwrap();
    assert_eq!(same.messages[0].content[0].text, message.content[0].text);
    let not_a_string =
        prompt.get(Some(parse("{\"code\":\"fn f() {}\",\"focus\":3}").unwrap())).unwrap();
    assert_eq!(
        not_a_string.description.as_deref(),
        Some("Requesting general review for code snippet")
    );
}

#[test]
fn the_review_prompt_names_the_focus_it_is_given() {
    let result = CodeReviewPrompt::new()
        .get(Some(parse("{\"code\":\"x\",\"focus\":\"security\"}").unwrap()))
        .unwrap();
    assert_eq!(result.description.as_deref(), Some("Requesting security review for code snippet"));
    assert_eq!(
        result.messages[0].content[0].text,
        "Please review the following code for potential issues and suggest improvements, focusing specifically on security:\n\n```\nx\n```"
    );
    assert_eq!(
        to_string(&result.messages[0].to_json()).unwrap(),
        "{\"content\":[{\"text\":\"Please review the following code for potential issues and suggest improvements, focusing specifically on security:\\n\\n```\\nx\\n```\",\"type\":\"text\"}],\"role\":\"user\"}"
    );
}

#[test]
fn the_review_prompt_wants_arguments_and_code() {
    let prompt = CodeReviewPrompt::new();
    let error = prompt.get(None).unwrap_err();
    assert_eq!(error.message(), "Invalid params: Missing arguments");
    for arguments in ["{}", "{\"code\":1}", "{\"focus\":\"style\"}", "null"] {
        let error = prompt.get(Some(parse(arguments).unwrap())).unwrap_err();
        assert_eq!(error.kind(), ErrorKind::InvalidParams);
        assert_eq!(error.detail(), "Missing 'code' argument");
    }
}

#[test]
fn a_prompt_result_without_a_description_is_written_without_one() {
    let result = GetPromptResult { description: None, messages: vec![Message::of("user", "hi")] };
    assert_eq!(
        to_string(&result.to_json()).unwrap(),
        "{\"messages\":[{\"content\":[{\"text\":\"hi\",\"type\":\"text\"}],\"role\":\"user\"}]}"
    );
}

#[test]
fn a_clone_is_written_as_what_it_was_made_from() {
    let tool = CalculatorTool::tool_definition();
    assert_eq!(to_string(&tool.clone().to_json()).unwrap(), to_string(&tool.to_json()).unwrap());
    let result = CallToolResult::success(vec![TextContent::new("a"), TextContent::new("b")]);
    assert_eq!(
        to_string(&result.clone().to_json()).unwrap(),
        to_string(&result.to_json()).unwrap()
    );
    let read = ConfigResource::new().read("config://app").unwrap();
    assert_eq!(to_string(&read.clone().to_json()).unwrap(), to_string(&read.to_json()).unwrap());
    let descriptor = ConfigResource::resource_definition();
    assert_eq!(
        to_string(&descriptor.clone().to_json()).unwrap(),
        to_string(&descriptor.to_json()).unwrap()
    );
    let prompt = CodeReviewPrompt::prompt_definition();
    assert_eq!(
        to_string(&prompt.clone().to_json()).unwrap(),
        to_string(&prompt.to_json()).unwrap()
    );
    let filled = CodeReviewPrompt::new().get(Some(parse("{\"code\":\"x\"}").unwrap())).unwrap();
    assert_eq!(
        to_string(&filled.clone().to_json()).unwrap(),
        to_string(&filled.to_json()).unwrap()
    );
    let blob = Resource {
        uri: "u".to_string(),
        mime_type: "m".to_string(),
        text: None,
        blob: Some("YQ==".to_string()),
        size: Some(1),
    };
    assert_eq!(to_string(&blob.clone().to_json()).unwrap(), to_string(&blob.to_json()).unwrap());
}
