//! Context-aware CLI error messages, command suggestions and help texts.

use vstd::prelude::*;
use crate::text::{opt_view, views, extend_strings, lemma_views_push, lemma_views_prefix, chars_of, contains_chars, contains_seq, find_from, first_occurrence_from, occurs_at, owned, push_str, str_eq, string_of_range, to_lowercase, lowercase};

verus! {

/// Quick help shown by `uveddi help` without a topic.
pub const QUICK_HELP: &'static str = r#"🚀 Uveddi - Architectural Analysis Tool

📋 Essential Commands:
  analyze, a       Analyze your code for issues and anti-patterns  
  doctor, dr       Check system health & automatically fix issues
  init             Initialize Uveddi configuration for your project
  config, cfg      Manage and validate configuration settings
  hooks            Install Git hooks for automated analysis
  help             Show detailed help and tutorials

🎯 Getting Started (< 2 minutes):
  1. Initialize your project:
     uveddi init

  2. Check system health:
     uveddi doctor --fix

  3. Run your first analysis:
     uveddi analyze ./src --progress-details

  4. Generate interactive report:
     uveddi analyze ./src --output-format html --output reports/analysis.html

🔧 Common Workflows:
  • New project setup:     uveddi init --git-hooks
  • Quick health check:    uveddi dr --fix
  • Staged files analysis: git add . && uveddi analyze --changed-files
  • CI/CD integration:     uveddi hooks install --pre-push

⚡ Pro Tips:
  • Use aliases: 'a' for analyze, 'dr' for doctor, 'cfg' for config
  • Enable AI insights: --enable-ai (requires Ollama)
  • Get smart suggestions: uveddi config validate --suggestions
  • Parallel analysis: --parallel (for large codebases)

💡 Need More Help?
  uveddi help <topic>         # Get help on specific topics
  uveddi help examples        # See detailed usage examples  
  uveddi help tutorials       # Step-by-step guides
  uveddi help workflows       # Common development workflows
  uveddi help troubleshooting # Common issues and fixes

📚 Available Help Topics:
  installation, configuration, troubleshooting, ci-cd, plugins, examples, 
  tutorials, workflows, performance, ai-integration

🔗 Resources:
  • Documentation: https://github.com/botzrDev/uveddi
  • Issues & Support: https://github.com/botzrDev/uveddi/issues
  • Quick Start Guide: uveddi help tutorials
"#;
/// Help text of the topic `installation`.
pub const TOPIC_INSTALLATION: &'static str = r#"
📦 Installation Help

System Requirements:
  • Rust 1.70+ (for building from source)
  • Git (for development workflow)
  • Optional: Ollama (for AI features)

Installation Options:
  # From crates.io
  cargo install uveddi

  # From source (latest features)
  git clone https://github.com/botzrDev/uveddi.git
  cd uveddi
  cargo build --release --features=production

  # Development build (faster compilation)
  cargo build --features=dev-minimal

Verification:
  uveddi doctor                          # Check installation health
  uveddi --version                       # Verify version
"#;
/// Help text of the topic `configuration`.
pub const TOPIC_CONFIGURATION: &'static str = r#"
⚙️  Configuration Help

Configuration Files:
  • ~/.config/uveddi/config.toml         # User settings
  • ./uveddi.toml                        # Project settings
  • .env                                 # Environment variables

Quick Setup:
  uveddi init                            # Interactive setup
  uveddi config show                     # View current config
  uveddi config set key value            # Update setting

Common Settings:
  [analysis]
  languages = ["rust", "python", "javascript"]
  max_depth = 10

  [ai]
  provider = "ollama"
  model = "deepseek-coder:6.7b"

  [output]
  format = "html"
  include_timing = true
"#;
/// Help text of the topic `troubleshooting`.
pub const TOPIC_TROUBLESHOOTING: &'static str = r#"
🔧 Troubleshooting Help

Common Issues:
  1. "Command not found"
     → Check PATH or use full path to binary

  2. "Permission denied"
     → Run 'uveddi doctor --fix' for auto-repair
     → Check file permissions manually

  3. "Analysis timeout"
     → Use --timeout <seconds> for large codebases
     → Try --memory-optimization

  4. "AI not working"
     → Check Ollama with 'ollama serve'
     → Run 'uveddi doctor --ai'

Diagnostic Commands:
  uveddi doctor                          # Full system check
  uveddi doctor --parsers                # Check language support
  uveddi doctor --ai                     # Check AI integration
  uveddi config validate                 # Verify configuration
"#;
/// Help text of the topic `ci-cd`.
pub const TOPIC_CI_CD: &'static str = r#"
🚀 CI/CD Integration Help

Quick Setup:
  uveddi hooks install --pre-push        # Install Git hooks
  uveddi ci setup github-actions         # Generate GitHub workflow
  uveddi ci setup gitlab                # Generate GitLab CI config

GitHub Actions Example:
  name: Code Quality Check
  on: [push, pull_request]
  jobs:
    analyze:
      runs-on: ubuntu-latest
      steps:
        - uses: actions/checkout@v3
        - name: Install Uveddi
          run: cargo install uveddi
        - name: Health Check
          run: uveddi doctor
        - name: Analyze Code
          run: uveddi analyze ./src --output-format json --output analysis.json
        - name: Upload Results
          uses: actions/upload-artifact@v3
          with:
            name: analysis-results
            path: analysis.json

Git Hooks Integration:
  # Pre-commit hook (blocks commits with critical issues)
  uveddi hooks install --pre-commit --max-issues 5

  # Pre-push hook (full repository analysis)
  uveddi hooks install --pre-push --timeout 600

Custom Integration:
  # Machine-readable output
  uveddi analyze ./src --output-format json --progress-format json

  # Exit codes: 0=success, 1=issues found, 2=critical error
  # Quality gates
  uveddi analyze ./src --fail-on critical --max-issues 10

Performance Tips for CI:
  • Use --changed-files-only for faster pre-commit checks
  • Cache analysis results with --cache-dir
  • Set appropriate timeouts with --timeout
  • Use minimal features for faster builds
"#;

/// Help text of the topic `plugins`.
pub const TOPIC_PLUGINS: &'static str = r#"
🔧 Plugin System Help

WebAssembly plugins extend the analysis with extra detectors.
The plugin commands need a build with the wasm-plugins feature.

Usage:
  uveddi plugin list                     # List installed plugins
  uveddi plugin install plugin.wasm      # Install new plugin
  uveddi plugin info <id>                # Plugin details

See also: uveddi help examples
"#;

/// Help text of the topic `examples`.
pub const TOPIC_EXAMPLES: &'static str = r#"
📚 Usage Examples

Basic Analysis:
  uveddi analyze ./src                   # Analyze source directory
  uveddi a .                            # Short alias for current directory
  uveddi analyze main.rs app.py         # Analyze specific files

Output Formats:
  uveddi analyze ./src --output-format html --output report.html
  uveddi analyze ./src --output-format json --output results.json  
  uveddi analyze ./src --output-format markdown --output analysis.md

AI-Powered Analysis:
  uveddi analyze ./src --enable-ai       # AI explanations (requires Ollama)
  uveddi analyze ./src --enable-ai --ollama-model deepseek-coder:6.7b

Progress Tracking:
  uveddi analyze ./src --progress-details              # Show file names
  uveddi analyze ./src --progress-format json          # JSON progress events
  uveddi analyze ./src --progress-format silent        # Quiet mode

Configuration Management:
  uveddi init                           # Interactive project setup
  uveddi init --template rust          # Use Rust project template
  uveddi config show                   # Display current configuration
  uveddi config validate --suggestions # Get optimization suggestions
  uveddi config set ollama_model "deepseek-coder:6.7b-instruct-q4_0"

Health & Diagnostics:
  uveddi doctor                         # Full system health check
  uveddi doctor --fix                   # Auto-fix common issues
  uveddi doctor --parsers               # Check language parser availability
  uveddi doctor --ai                    # Check AI integration
  uveddi doctor --output-format json    # Machine-readable health report

Git Integration:
  uveddi hooks install                  # Install pre-commit hook
  uveddi hooks install --pre-push      # Install pre-push hook
  uveddi hooks test pre-commit          # Test hook without committing
  uveddi hooks list --detailed         # Show hook status

Performance & Memory:
  uveddi analyze ./src --parallel                    # Multi-threaded analysis
  uveddi analyze ./src --memory-optimization         # For large codebases
  uveddi analyze ./src --timeout 600                 # 10-minute timeout
  uveddi analyze ./src --memory-limit-gb 4           # Set memory limit

Real-World Workflows:
  # New project setup
  cd my-project
  uveddi init --git-hooks
  uveddi doctor --fix
  git add .
  git commit -m "Initial commit"  # Runs analysis via hook

  # Daily development
  uveddi analyze --changed-files    # Analyze only modified files
  uveddi analyze ./src --enable-ai --output-format html --output today-report.html

  # Code review preparation
  uveddi analyze ./src --strict --output-format json > review-report.json
  uveddi config validate --suggestions > config-improvements.txt

  # CI/CD pipeline
  uveddi doctor && uveddi analyze ./src --output-format json --progress-format json
"#;
/// Help text of the topic `tutorials`.
pub const TOPIC_TUTORIALS: &'static str = r#"
🎓 Step-by-Step Tutorials

Tutorial 1: First-Time Setup (2 minutes)
  1. Install Uveddi:
     cargo install uveddi

  2. Navigate to your project:
     cd /path/to/your/project

  3. Initialize configuration:
     uveddi init
     # Follow interactive prompts to set up configuration

  4. Check system health:
     uveddi doctor --fix
     # Resolves common issues automatically

  5. Run your first analysis:
     uveddi analyze ./src --progress-details
     # Watch analysis progress with file-by-file feedback

  6. Generate a report:
     uveddi analyze ./src --output-format html --output analysis-report.html
     # Open analysis-report.html in your browser

Tutorial 2: AI-Powered Analysis Setup
  1. Install Ollama:
     # Visit https://ollama.ai for installation instructions

  2. Start Ollama service:
     ollama serve

  3. Download recommended model:
     ollama pull deepseek-coder:6.7b-instruct-q4_0

  4. Configure Uveddi for AI:
     uveddi config set ollama_model "deepseek-coder:6.7b-instruct-q4_0"

  5. Run AI-powered analysis:
     uveddi analyze ./src --enable-ai
     # Get intelligent explanations for detected issues

Tutorial 3: Git Hooks Integration
  1. Install pre-commit hook:
     uveddi hooks install --pre-commit

  2. Configure hook settings:
     # Edit .uveddi/hooks.toml to customize behavior

  3. Test the hook:
     git add some-file.rs
     uveddi hooks test pre-commit
     # Verify hook behavior without committing

  4. Make a commit:
     git add .
     git commit -m "Your commit message"
     # Hook runs automatically, blocks if issues found

Tutorial 4: Custom Configuration
  1. Create project-specific config:
     uveddi init --template rust  # or python, javascript, typescript

  2. Customize thresholds:
     # Edit uveddi.toml
     [large_classes]
     max_logical_loc = 150      # Smaller classes for your team
     max_methods = 15

  3. Validate configuration:
     uveddi config validate --suggestions
     # Get recommendations for optimization

  4. Test with new settings:
     uveddi analyze ./src
     # Analysis uses your custom thresholds

Tutorial 5: CI/CD Integration
  1. Install hooks for team workflow:
     uveddi hooks install --pre-push

  2. Generate CI config:
     uveddi ci setup github-actions
     # Creates .github/workflows/uveddi.yml

  3. Test locally:
     uveddi analyze ./src --output-format json
     # Verify CI-compatible output

  4. Commit and push:
     git add .github/workflows/uveddi.yml
     git commit -m "Add Uveddi CI integration"
     git push
     # Triggers analysis in CI environment

Next Steps:
  • Explore advanced features: uveddi help workflows
  • Optimize performance: uveddi help performance  
  • Set up team standards: uveddi help configuration
  • Troubleshoot issues: uveddi help troubleshooting
"#;
/// Help text of the topic `workflows`.
pub const TOPIC_WORKFLOWS: &'static str = r#"
🔄 Common Development Workflows

Daily Development Workflow:
  # Morning routine
  uveddi doctor --fix                   # Health check & auto-fix
  git pull origin main                  # Get latest changes
  
  # During development
  uveddi analyze --changed-files        # Quick check on modified files
  git add .
  git commit -m "Feature: new component" # Pre-commit hook runs automatically
  
  # Before pushing
  uveddi analyze ./src --enable-ai --output-format html --output daily-report.html
  git push origin feature-branch       # Pre-push hook runs if configured

Code Review Workflow:
  # Prepare for review
  uveddi analyze ./src --strict --confidence-threshold 0.9
  uveddi config validate --suggestions > config-review.txt
  
  # Generate review materials
  uveddi analyze ./src --output-format markdown --output review-summary.md
  uveddi analyze ./src --output-format json --output detailed-results.json
  
  # Share with team
  git add review-summary.md detailed-results.json
  git commit -m "Add analysis results for review"

New Project Workflow:
  # Project initialization
  mkdir my-new-project && cd my-new-project
  git init
  uveddi init --git-hooks               # Interactive setup with Git integration
  
  # First analysis
  # ... write some code ...
  uveddi doctor                         # Verify everything works
  uveddi analyze ./src                  # First analysis run
  git add .
  git commit -m "Initial project setup" # Hooks validate the commit

Team Onboarding Workflow:
  # New team member setup
  git clone project-repo
  cd project-repo
  uveddi doctor --fix                   # Auto-configure environment
  
  # Learn project standards
  cat .uveddi/hooks.toml               # Review team hook configuration
  cat uveddi.toml                      # Review project analysis settings
  
  # Test setup
  uveddi hooks test pre-commit          # Verify hooks work
  uveddi analyze ./src --enable-ai      # Run analysis with explanations

Release Preparation Workflow:
  # Pre-release analysis
  uveddi analyze ./src --strict --max-issues 0 --output-format json > release-quality.json
  
  # Generate release documentation
  uveddi analyze ./src --output-format html --output release-analysis.html
  
  # Verify CI integration
  uveddi hooks test pre-push            # Ensure hooks pass
  git tag v1.0.0
  git push origin v1.0.0               # Triggers full CI analysis

Debugging Workflow:
  # When analysis reports false positives
  uveddi analyze problematic-file.rs --verbose --debug
  
  # Adjust configuration
  uveddi config set dead_code.confidence_threshold 0.9
  uveddi config validate --suggestions
  
  # Re-run with new settings
  uveddi analyze problematic-file.rs
  
  # Update ignore patterns if needed
  # Edit uveddi.toml to add ignore patterns

Performance Optimization Workflow:
  # Baseline measurement
  time uveddi analyze ./src
  
  # Enable optimizations
  uveddi analyze ./src --parallel --memory-optimization
  
  # For very large codebases
  uveddi analyze ./src --timeout 1800 --memory-limit-gb 8
  
  # Selective analysis
  uveddi analyze ./src/core ./src/api  # Analyze specific directories
  uveddi analyze --changed-files       # Only analyze modified files

Continuous Integration Workflow:
  # Local pre-commit (fast)
  uveddi hooks install --pre-commit --changed-files-only --timeout 60
  
  # Pre-push validation (thorough)  
  uveddi hooks install --pre-push --timeout 300
  
  # CI pipeline (comprehensive)
  # GitHub Actions runs: uveddi analyze ./src --output-format json --progress-format json
  
  # Post-merge analysis (reporting)
  # Generate reports for dashboard/metrics collection

Maintenance Workflow:
  # Weekly maintenance
  uveddi doctor                         # Check for system issues
  uveddi config validate --suggestions # Review configuration optimizations
  
  # Update ignored patterns based on new files
  # Review and update .uveddi/hooks.toml settings
  
  # Monthly: Review analysis trends and adjust thresholds
  # Compare current analysis with historical results
"#;
/// Help text of the topic `performance`.
pub const TOPIC_PERFORMANCE: &'static str = r#"
⚡ Performance Optimization

Build Performance (60-80% faster compilation):
  # Use development feature sets for faster builds
  cargo build --features=dev-minimal    # Ultra-fast (16.8s)
  cargo build --features=dev-core       # Balanced (13.0s)
  cargo build --features=dev-rust-only  # Single language (70-85% faster)

Analysis Performance:
  # Parallel processing
  uveddi analyze ./src --parallel                    # Multi-threaded analysis
  uveddi analyze ./src --parallel --jobs 8           # Specify thread count

  # Memory optimization
  uveddi analyze ./src --memory-optimization         # Enable memory optimizations
  uveddi analyze ./src --memory-limit-gb 4           # Set memory limit
  uveddi analyze ./src --memory-profile large        # Large project profile

  # Selective analysis
  uveddi analyze ./src/core ./src/api                # Specific directories
  uveddi analyze --changed-files                     # Only modified files
  uveddi analyze ./src --depth 5                     # Limit analysis depth

  # Timeout management
  uveddi analyze ./src --timeout 600                 # 10-minute timeout
  uveddi analyze ./src --timeout 0                   # No timeout (use carefully)

Caching Strategies:
  # Enable caching for repeated analysis
  uveddi analyze ./src --cache-enabled
  uveddi analyze ./src --cache-dir .cache/uveddi

  # Incremental analysis
  uveddi analyze ./src --incremental                 # Only analyze changes

Large Codebase Optimization:
  # For codebases > 100k LOC
  uveddi analyze ./src \
    --parallel \
    --memory-optimization \
    --memory-limit-gb 8 \
    --timeout 1800 \
    --cache-enabled

  # Divide and conquer approach
  uveddi analyze ./src/backend --output backend-analysis.json
  uveddi analyze ./src/frontend --output frontend-analysis.json
  
CI/CD Performance:
  # Pre-commit (fast feedback)
  uveddi hooks install --pre-commit --changed-files-only --timeout 60

  # Use minimal features in CI
  cargo build --features=dev-minimal    # Faster CI builds
  uveddi analyze ./src --progress-format silent --timeout 300

Memory Management:
  # Monitor memory usage
  uveddi analyze ./src --memory-profile --verbose

  # Large project settings
  uveddi analyze ./src \
    --memory-limit-gb 8 \
    --memory-optimization \
    --memory-profile large

  # WSL optimization (Windows Subsystem for Linux)
  export CARGO_TARGET_DIR=/tmp/uveddi-target
  export CARGO_BUILD_JOBS=4
  export RUSTFLAGS="-C link-arg=-fuse-ld=lld"

Troubleshooting Slow Analysis:
  # Profile analysis performance
  uveddi analyze ./src --profile --verbose

  # Check for bottlenecks
  uveddi doctor --performance           # System performance check

  # Reduce scope
  uveddi analyze ./src --exclude-patterns "test/**,node_modules/**,target/**"

  # Skip expensive features
  uveddi analyze ./src --no-ai --no-diagram-generation

Benchmark Your Setup:
  # Measure baseline
  time uveddi analyze ./src

  # Test optimizations
  time uveddi analyze ./src --parallel --memory-optimization

  # Compare feature sets
  time cargo build --features=dev-minimal
  time cargo build --features=production

Performance Monitoring:
  # Track analysis metrics
  uveddi analyze ./src --benchmark --output-format json | jq '.performance'
  
  # Monitor resource usage
  /usr/bin/time -v uveddi analyze ./src
  
  # Set up alerts for CI timeouts
  uveddi analyze ./src --timeout 300 || echo "Analysis timeout - consider optimization"
"#;
/// Help text of the topic `ai-integration`.
pub const TOPIC_AI_INTEGRATION: &'static str = r#"
🤖 AI Integration Guide

Quick Setup:
  1. Install Ollama:
     # macOS: brew install ollama
     # Linux: curl -fsSL https://ollama.ai/install.sh | sh
     # Windows: Download from https://ollama.ai

  2. Start Ollama:
     ollama serve

  3. Install recommended model:
     ollama pull deepseek-coder:6.7b-instruct-q4_0

  4. Configure Uveddi:
     uveddi config set ollama_model "deepseek-coder:6.7b-instruct-q4_0"

  5. Test AI integration:
     uveddi doctor --ai

Available Models (by use case):
  # Code analysis (recommended)
  ollama pull deepseek-coder:6.7b-instruct-q4_0
  
  # General purpose
  ollama pull codellama:7b-instruct
  
  # Lightweight (faster, less accurate)
  ollama pull llama2:7b-chat
  
  # Large projects (slower, more detailed)
  ollama pull deepseek-coder:33b-instruct

AI-Powered Analysis:
  # Basic AI analysis
  uveddi analyze ./src --enable-ai

  # AI with specific model
  uveddi analyze ./src --enable-ai --ollama-model deepseek-coder:33b-instruct

  # AI explanations in HTML report
  uveddi analyze ./src --enable-ai --output-format html --output ai-report.html

  # JSON output with AI insights
  uveddi analyze ./src --enable-ai --output-format json | jq '.ai_insights'

Configuration Options:
  # In uveddi.toml
  [ai]
  provider = "ollama"
  model = "deepseek-coder:6.7b-instruct-q4_0"
  api_url = "http://localhost:11434"
  timeout_seconds = 120
  max_context_length = 4096

  # Environment variables
  export OLLAMA_API_URL="http://localhost:11434"
  export OLLAMA_MODEL="deepseek-coder:6.7b-instruct-q4_0"

Advanced Features:
  # Context-aware explanations
  uveddi analyze problematic-file.rs --enable-ai --verbose

  # AI-powered suggestions
  uveddi analyze ./src --enable-ai --suggestions-only

  # Batch AI analysis
  for file in $(find ./src -name "*.rs"); do
    uveddi analyze "$file" --enable-ai --output-format json >> ai-batch-results.json
  done

Performance Tuning:
  # Faster AI (smaller model)
  uveddi config set ollama_model "llama2:7b-chat"
  
  # More accurate AI (larger model)  
  uveddi config set ollama_model "deepseek-coder:33b-instruct"
  
  # Timeout for large codebases
  uveddi analyze ./src --enable-ai --ai-timeout 300

Troubleshooting AI Issues:
  # Check Ollama status
  ollama list                           # Show installed models
  curl http://localhost:11434/api/tags  # API endpoint test

  # Diagnosis
  uveddi doctor --ai --verbose         # Detailed AI health check
  
  # Common fixes
  ollama pull deepseek-coder:6.7b-instruct-q4_0  # Ensure model is available
  ollama serve                          # Restart Ollama service
  
  # Test connectivity
  curl -X POST http://localhost:11434/api/generate \
    -H "Content-Type: application/json" \
    -d '{"model": "deepseek-coder:6.7b-instruct-q4_0", "prompt": "test"}'

Remote AI Setup:
  # Use remote Ollama instance
  uveddi config set ai.api_url "http://remote-server:11434"
  
  # With authentication (if required)
  export OLLAMA_API_KEY="your-api-key"
  uveddi analyze ./src --enable-ai

Integration with IDEs:
  # VS Code: Generate AI explanations for selected code
  uveddi analyze selected-file.rs --enable-ai --output-format markdown

  # Vim/Neovim: Integrate with quickfix
  uveddi analyze ./src --enable-ai --output-format json | jq -r '.issues[] | "file:\(.file_path) line:\(.line_number) \(.ai_explanation)"'

Best Practices:
  • Use AI sparingly in CI/CD (adds significant time)
  • Cache AI results for repeated analysis of same code
  • Choose model size based on your hardware and speed requirements
  • Use AI explanations for learning and code reviews
  • Combine AI insights with traditional static analysis
  • Review AI suggestions critically - they're not always correct
"#;

/// Enhanced CLI error with context and suggestions.
pub struct CliError {
    pub message: String,
    pub context: Option<String>,
    pub suggestions: Vec<String>,
    pub help_topic: Option<String>,
}

/// The contents of a [`CliError`].
#[verifier::ext_equal]
pub struct CliErrorView {
    pub message: Seq<char>,
    pub context: Option<Seq<char>>,
    pub suggestions: Seq<Seq<char>>,
    pub help_topic: Option<Seq<char>>,
}

impl View for CliError {
    type V = CliErrorView;

    open spec fn view(&self) -> CliErrorView {
        CliErrorView {
            message: self.message@,
            context: opt_view(self.context),
            suggestions: views(self.suggestions@),
            help_topic: opt_view(self.help_topic),
        }
    }
}


impl CliError {
    /// An error with a message and nothing else.
    pub fn new(message: String) -> (e: Self)
        ensures
            e@ == (CliErrorView { message: message@, context: None, suggestions: Seq::empty(), help_topic: None }),
    {
        let e = CliError { message, context: None, suggestions: Vec::new(), help_topic: None };
        assert(views(e.suggestions@) =~= Seq::empty());
        e
    }

    /// Sets the context line.
    pub fn with_context(self, context: String) -> (e: Self)
        ensures
            e@ == (CliErrorView { context: Some(context@), ..self@ }),
    {
        let mut e = self;
        e.context = Some(context);
        e
    }

    /// Adds one suggestion after the existing ones.
    pub fn with_suggestion(self, suggestion: String) -> (e: Self)
        ensures
            e@ == (CliErrorView { suggestions: self@.suggestions.push(suggestion@), ..self@ }),
    {
        let mut e = self;
        e.suggestions.push(suggestion);
        assert(views(e.suggestions@) =~= views(self.suggestions@).push(suggestion@));
        e
    }

    /// Adds suggestions after the existing ones, in order.
    pub fn with_suggestions(self, suggestions: Vec<String>) -> (e: Self)
        ensures
            e@ == (CliErrorView { suggestions: self@.suggestions + views(suggestions@), ..self@ }),
    {
        let mut e = self;
        extend_strings(&mut e.suggestions, &suggestions);
        e
    }

    /// Sets the help topic.
    pub fn with_help_topic(self, topic: String) -> (e: Self)
        ensures
            e@ == (CliErrorView { help_topic: Some(topic@), ..self@ }),
    {
        let mut e = self;
        e.help_topic = Some(topic);
        e
    }

    /// The error as the user sees it, one item per line.
    pub fn to_display_string(&self) -> (s: String)
        ensures
            s@ == display_text(self@),
    {
        let mut s = owned("❌ ");
        push_str(&mut s, self.message.as_str());
        push_str(&mut s, "\n");
        match &self.context {
            Some(c) => {
                push_str(&mut s, "📍 Context: ");
                push_str(&mut s, c.as_str());
                push_str(&mut s, "\n");
            },
            None => {},
        }
        if self.suggestions.len() > 0 {
            push_str(&mut s, "\n💡 Suggestions:\n");
            let ghost before = s@;
            let mut i: usize = 0;
            while i < self.suggestions.len()
                invariant
                    i <= self.suggestions.len(),
                    s@ == before + bullet_lines(views(self.suggestions@).subrange(0, i as int)),
                decreases self.suggestions.len() - i,
            {
                let ghost prev = views(self.suggestions@).subrange(0, i as int);
                push_str(&mut s, "   • ");
                push_str(&mut s, self.suggestions[i].as_str());
                push_str(&mut s, "\n");
                i = i + 1;
                assert(views(self.suggestions@).subrange(0, i as int).drop_last() =~= prev);
            }
            assert(views(self.suggestions@).subrange(0, i as int) =~= views(self.suggestions@));
        }
        match &self.help_topic {
            Some(t) => {
                push_str(&mut s, "\n📚 For more help: uveddi help ");
                push_str(&mut s, t.as_str());
                push_str(&mut s, "\n");
            },
            None => {},
        }
        s
    }
}

/// One bullet line per suggestion.
pub open spec fn bullet_lines(s: Seq<Seq<char>>) -> Seq<char>
    decreases s.len(),
{
    if s.len() == 0 {
        Seq::empty()
    } else {
        bullet_lines(s.drop_last()) + "   • "@ + s.last() + "\n"@
    }
}

/// The displayed form of an error: the message, the context, the
/// suggestions and the help topic, each on its own line when present.
pub open spec fn display_text(e: CliErrorView) -> Seq<char> {
    "❌ "@ + e.message + "\n"@
        + (match e.context { Some(c) => "📍 Context: "@ + c + "\n"@, None => Seq::empty() })
        + (if e.suggestions.len() > 0 { "\n💡 Suggestions:\n"@ + bullet_lines(e.suggestions) } else { Seq::empty() })
        + (match e.help_topic { Some(t) => "\n📚 For more help: uveddi help "@ + t + "\n"@, None => Seq::empty() })
}

/// The commands that typos are matched against, aliases included.
pub open spec fn available_commands() -> Seq<Seq<char>> {
    seq!["analyze"@, "a"@, "doctor"@, "dr"@, "config"@, "cfg"@, "init"@, "hooks"@, "serve"@, "tui"@, "plugin"@, "ci"@, "ui"@, "help"@]
}

/// The help topics.
pub open spec fn help_topics() -> Seq<Seq<char>> {
    seq!["installation"@, "configuration"@, "troubleshooting"@, "ci-cd"@, "plugins"@, "examples"@, "tutorials"@, "workflows"@, "performance"@, "ai-integration"@]
}

fn available_command_list() -> (v: Vec<&'static str>)
    ensures
        v@.map_values(|c: &str| c@) == available_commands(),
{
    let v = vec!["analyze", "a", "doctor", "dr", "config", "cfg", "init", "hooks", "serve", "tui", "plugin", "ci", "ui", "help"];
    assert(v@.map_values(|c: &str| c@) =~= available_commands());
    v
}

/// Minimum number of single-character insertions, deletions and
/// substitutions that turn `a` into `b`.
pub open spec fn edit_distance(a: Seq<char>, b: Seq<char>) -> nat
    decreases a.len() + b.len(),
{
    if a.len() == 0 {
        b.len()
    } else if b.len() == 0 {
        a.len()
    } else {
        let del = edit_distance(a.drop_last(), b) + 1;
        let ins = edit_distance(a, b.drop_last()) + 1;
        let sub = edit_distance(a.drop_last(), b.drop_last()) + (if a.last() == b.last() { 0nat } else { 1nat });
        if del <= ins && del <= sub { del } else if ins <= sub { ins } else { sub }
    }
}

/// `levenshtein::levenshtein`: the edit distance between the characters of
/// `a` and `b`.
#[verifier::external_body]
fn levenshtein_distance(a: &str, b: &str) -> (d: usize)
    ensures
        d == edit_distance(a@, b@),
{
    levenshtein::levenshtein(a, b)
}

/// Indices `i < n` with `ds[i] == d`, in increasing order.
pub open spec fn indices_at(ds: Seq<nat>, d: nat, n: int) -> Seq<int>
    decreases n,
{
    if n <= 0 {
        Seq::empty()
    } else {
        indices_at(ds, d, n - 1) + (if ds[n - 1] == d { seq![n - 1] } else { Seq::empty() })
    }
}

/// Candidates within distance two, ordered by distance and then by position.
pub open spec fn ranking(ds: Seq<nat>) -> Seq<int> {
    indices_at(ds, 0, ds.len() as int) + indices_at(ds, 1, ds.len() as int)
        + indices_at(ds, 2, ds.len() as int)
}

/// Edit distance from `input` to each available command.
pub open spec fn command_distances(input: Seq<char>) -> Seq<nat> {
    available_commands().map_values(|c: Seq<char>| edit_distance(input, c))
}

/// At most three commands closest to `input`: those within edit distance
/// two, the nearest first, ties broken by the order of the command list.
pub open spec fn suggestions_for(input: Seq<char>) -> Seq<Seq<char>> {
    let r = ranking(command_distances(input));
    let k = if r.len() < 3 { r.len() } else { 3 };
    r.take(k as int).map_values(|i: int| available_commands()[i])
}

proof fn lemma_edit_distance_self(a: Seq<char>)
    ensures
        edit_distance(a, a) == 0,
    decreases a.len(),
{
    if a.len() > 0 {
        lemma_edit_distance_self(a.drop_last());
    }
}

proof fn lemma_edit_distance_zero(a: Seq<char>, b: Seq<char>)
    requires
        edit_distance(a, b) == 0,
    ensures
        a == b,
    decreases a.len() + b.len(),
{
    if a.len() == 0 {
        assert(b =~= a);
    } else if b.len() == 0 {
        assert(a =~= b);
    } else {
        lemma_edit_distance_zero(a.drop_last(), b.drop_last());
        assert(a =~= a.drop_last().push(a.last()));
        assert(b =~= b.drop_last().push(b.last()));
    }
}

proof fn lemma_indices_at_members(ds: Seq<nat>, d: nat, n: int, k: int)
    requires
        0 <= k < n <= ds.len(),
        ds[k] == d,
    ensures
        indices_at(ds, d, n).len() >= 1,
        0 <= indices_at(ds, d, n)[0] < n,
        ds[indices_at(ds, d, n)[0]] == d,
    decreases n,
{
    if k < n - 1 {
        lemma_indices_at_members(ds, d, n - 1, k);
        let r = indices_at(ds, d, n - 1);
        assert(indices_at(ds, d, n)[0] == r[0]);
    } else if indices_at(ds, d, n - 1).len() > 0 {
        lemma_indices_at_first(ds, d, n - 1);
        assert(indices_at(ds, d, n)[0] == indices_at(ds, d, n - 1)[0]);
    } else {
        assert(indices_at(ds, d, n)[0] == n - 1);
    }
}

proof fn lemma_indices_at_first(ds: Seq<nat>, d: nat, n: int)
    requires
        0 <= n <= ds.len(),
        indices_at(ds, d, n).len() > 0,
    ensures
        0 <= indices_at(ds, d, n)[0] < n,
        ds[indices_at(ds, d, n)[0]] == d,
    decreases n,
{
    if n > 0 {
        if indices_at(ds, d, n - 1).len() > 0 {
            lemma_indices_at_first(ds, d, n - 1);
            assert(indices_at(ds, d, n)[0] == indices_at(ds, d, n - 1)[0]);
        } else {
            assert(indices_at(ds, d, n)[0] == n - 1);
        }
    }
}

proof fn lemma_indices_at_all(ds: Seq<nat>, d: nat, n: int)
    requires
        n <= ds.len(),
    ensures
        forall|x: int| 0 <= x < indices_at(ds, d, n).len()
            ==> 0 <= #[trigger] indices_at(ds, d, n)[x] < n && ds[indices_at(ds, d, n)[x]] == d,
    decreases n,
{
    if n > 0 {
        lemma_indices_at_all(ds, d, n - 1);
        let r = indices_at(ds, d, n - 1);
        assert forall|x: int| 0 <= x < indices_at(ds, d, n).len()
            implies 0 <= #[trigger] indices_at(ds, d, n)[x] < n && ds[indices_at(ds, d, n)[x]] == d by {
            if x < r.len() {
                assert(indices_at(ds, d, n)[x] == r[x]);
            }
        }
    }
}

/// Suggestions are few and close: at most three, each one of the CLI's
/// commands within edit distance two of what was typed.
pub proof fn lemma_suggestions_are_close(input: Seq<char>)
    ensures
        suggestions_for(input).len() <= 3,
        forall|i: int| 0 <= i < suggestions_for(input).len() ==> seq!["analyze"@, "a"@, "doctor"@, "dr"@, "config"@, "cfg"@, "init"@, "hooks"@, "serve"@, "tui"@, "plugin"@, "ci"@, "ui"@, "help"@].contains(#[trigger] suggestions_for(input)[i])
            && edit_distance(input, suggestions_for(input)[i]) <= 2,
{
    let ds = command_distances(input);
    let n = ds.len() as int;
    let cmds = available_commands();
    lemma_indices_at_all(ds, 0, n);
    lemma_indices_at_all(ds, 1, n);
    lemma_indices_at_all(ds, 2, n);
    let a = indices_at(ds, 0, n);
    let b = indices_at(ds, 1, n);
    let c = indices_at(ds, 2, n);
    let r = ranking(ds);
    assert forall|x: int| 0 <= x < r.len() implies 0 <= #[trigger] r[x] < n && ds[r[x]] <= 2 by {
        if x < a.len() {
            assert(r[x] == a[x]);
        } else if x < a.len() + b.len() {
            assert(r[x] == b[x - a.len()]);
        } else {
            assert(r[x] == c[x - a.len() - b.len()]);
        }
    }
    let t = if r.len() < 3 { r.len() } else { 3 };
    let s = suggestions_for(input);
    assert forall|i: int| 0 <= i < s.len() implies seq!["analyze"@, "a"@, "doctor"@, "dr"@, "config"@, "cfg"@, "init"@, "hooks"@, "serve"@, "tui"@, "plugin"@, "ci"@, "ui"@, "help"@].contains(#[trigger] s[i])
        && edit_distance(input, s[i]) <= 2 by {
        let k = r.take(t as int)[i];
        assert(k == r[i]);
        assert(s[i] == cmds[k]);
        assert(ds[k] == edit_distance(input, cmds[k]));
        assert(cmds == seq!["analyze"@, "a"@, "doctor"@, "dr"@, "config"@, "cfg"@, "init"@, "hooks"@, "serve"@, "tui"@, "plugin"@, "ci"@, "ui"@, "help"@]);
    }
}

/// Every command of the CLI, aliases included, is recognised as itself:
/// the first suggestion for a command's own name is that command.
pub proof fn lemma_commands_suggest_themselves()
    ensures
        forall|c: Seq<char>| seq!["analyze"@, "a"@, "doctor"@, "dr"@, "config"@, "cfg"@, "init"@, "hooks"@, "serve"@, "tui"@, "plugin"@, "ci"@, "ui"@, "help"@].contains(c)
            ==> #[trigger] suggestions_for(c).len() >= 1 && suggestions_for(c)[0] == c,
{
    let cmds = available_commands();
    assert(cmds == seq!["analyze"@, "a"@, "doctor"@, "dr"@, "config"@, "cfg"@, "init"@, "hooks"@, "serve"@, "tui"@, "plugin"@, "ci"@, "ui"@, "help"@]);
    assert forall|c: Seq<char>| seq!["analyze"@, "a"@, "doctor"@, "dr"@, "config"@, "cfg"@, "init"@, "hooks"@, "serve"@, "tui"@, "plugin"@, "ci"@, "ui"@, "help"@].contains(c)
        implies #[trigger] suggestions_for(c).len() >= 1 && suggestions_for(c)[0] == c by {
        let k = choose|k: int| 0 <= k < cmds.len() && cmds[k] == c;
        let ds = command_distances(c);
        lemma_edit_distance_self(c);
        assert(ds[k] == 0nat);
        lemma_indices_at_members(ds, 0, ds.len() as int, k);
        let first = indices_at(ds, 0, ds.len() as int)[0];
        assert(ds[first] == edit_distance(c, cmds[first]));
        lemma_edit_distance_zero(c, cmds[first]);
        let r = ranking(ds);
        assert(r[0] == first);
        let t = if r.len() < 3 { r.len() } else { 3 };
        assert(r.take(t as int)[0] == first);
        assert(suggestions_for(c)[0] == cmds[first]);
    }
}

/// Suggests commands similar to a mistyped one.
pub fn suggest_command(input: &str) -> (r: Vec<String>)
    ensures
        views(r@) == suggestions_for(input@),
{
    let cmds = available_command_list();
    let ghost ds = command_distances(input@);
    let mut dists: Vec<usize> = Vec::new();
    let mut i: usize = 0;
    while i < cmds.len()
        invariant
            cmds@.map_values(|c: &str| c@) == available_commands(),
            ds == command_distances(input@),
            i <= cmds.len(),
            dists.len() == i,
            forall|j: int| 0 <= j < i ==> dists@[j] == ds[j],
        decreases cmds.len() - i,
    {
        let d = levenshtein_distance(input, cmds[i]);
        dists.push(d);
        i = i + 1;
    }
    let mut ranked: Vec<usize> = Vec::new();
    let mut dd: usize = 0;
    while dd < 3
        invariant
            dists.len() == cmds.len(),
            ds.len() == cmds.len(),
            forall|j: int| 0 <= j < dists.len() ==> dists@[j] == ds[j],
            dd <= 3,
            ranked@.map_values(|x: usize| x as int) == ranked_prefix(ds, dd as nat),
            forall|j: int| 0 <= j < ranked.len() ==> ranked@[j] < cmds.len(),
        decreases 3 - dd,
    {
        let ghost before = ranked@.map_values(|x: usize| x as int);
        let mut k: usize = 0;
        while k < dists.len()
            invariant
                dists.len() == cmds.len(),
                ds.len() == cmds.len(),
                forall|j: int| 0 <= j < dists.len() ==> dists@[j] == ds[j],
                dd < 3,
                k <= dists.len(),
                ranked@.map_values(|x: usize| x as int) == before + indices_at(ds, dd as nat, k as int),
                forall|j: int| 0 <= j < ranked.len() ==> ranked@[j] < cmds.len(),
            decreases dists.len() - k,
        {
            let ghost prev = ranked@;
            if dists[k] == dd {
                ranked.push(k);
                assert(ranked@ == prev.push(k));
                assert(ranked@.map_values(|x: usize| x as int) =~= prev.map_values(|x: usize| x as int).push(k as int));
            }
            k = k + 1;
            assert(ranked@.map_values(|x: usize| x as int) =~= before + indices_at(ds, dd as nat, k as int));
        }
        dd = dd + 1;
    }
    assert(ranked_prefix(ds, 3) =~= ranking(ds)) by {
        reveal_with_fuel(ranked_prefix, 4);
        assert(ranked_prefix(ds, 0) + indices_at(ds, 0, ds.len() as int) =~= indices_at(ds, 0, ds.len() as int));
    }
    let limit: usize = if ranked.len() < 3 { ranked.len() } else { 3 };
    let mut r: Vec<String> = Vec::new();
    let mut j: usize = 0;
    while j < limit
        invariant
            j <= limit <= ranked.len(),
            limit == (if ranked.len() < 3 { ranked.len() } else { 3 }),
            cmds@.map_values(|c: &str| c@) == available_commands(),
            ranked@.map_values(|x: usize| x as int) == ranking(ds),
            forall|q: int| 0 <= q < ranked.len() ==> ranked@[q] < cmds.len(),
            views(r@) == ranking(ds).take(j as int).map_values(|x: int| available_commands()[x]),
        decreases limit - j,
    {
        let c = cmds[ranked[j]];
        let ghost prev = r@;
        let cs = owned(c);
        r.push(cs);
        proof {
            lemma_views_push(prev, cs);
            assert(ranking(ds)[j as int] == ranked@[j as int] as int);
            assert(cmds@.map_values(|c: &str| c@)[ranked@[j as int] as int] == c@);
            assert(ranking(ds).take(j + 1).map_values(|x: int| available_commands()[x])
                =~= ranking(ds).take(j as int).map_values(|x: int| available_commands()[x]).push(available_commands()[ranking(ds)[j as int]]));
        }
        j = j + 1;
    }
    r
}

/// The ranking built so far after scanning the distances below `dd`.
pub open spec fn ranked_prefix(ds: Seq<nat>, dd: nat) -> Seq<int>
    decreases dd,
{
    if dd == 0 {
        Seq::empty()
    } else {
        ranked_prefix(ds, (dd - 1) as nat) + indices_at(ds, (dd - 1) as nat, ds.len() as int)
    }
}

/// The command named in an error message: the text after `subcommand '` up
/// to the next quote, or else the text between the first two quotes.
pub open spec fn invalid_command_in(e: Seq<char>) -> Option<Seq<char>> {
    let primary = match first_occurrence_from(e, "subcommand '"@, 0) {
        Some(s) => match first_occurrence_from(e, seq!['\''], s + 12) {
            Some(t) => Some(e.subrange(s + 12, t)),
            None => None,
        },
        None => None,
    };
    if primary is Some {
        primary
    } else {
        match first_occurrence_from(e, seq!['\''], 0) {
            Some(s) => match first_occurrence_from(e, seq!['\''], s + 1) {
                Some(t) => Some(e.subrange(s + 1, t)),
                None => None,
            },
            None => None,
        }
    }
}

fn after_subcommand(e: &Vec<char>) -> (r: Option<String>)
    ensures
        opt_view(r) == (match first_occurrence_from(e@, "subcommand '"@, 0) {
            Some(s) => match first_occurrence_from(e@, seq!['\''], s + 12) {
                Some(t) => Some(e@.subrange(s + 12, t)),
                None => None,
            },
            None => None,
        }),
{
    let pat = chars_of("subcommand '");
    let quote = chars_of("'");
    proof {
        reveal_strlit("subcommand '");
        reveal_strlit("'");
        assert(pat@.len() == 12);
        assert(quote@ =~= seq!['\'']);
    }
    match find_from(e, &pat, 0) {
        Some(start) => {
            assert(occurs_at(e@, pat@, start as int));
            let n = e.len();
            assert(start + 12 <= n);
            let start = start + 12;
            match find_from(e, &quote, start) {
                Some(end) => Some(string_of_range(e, start, end)),
                None => None,
            }
        },
        None => None,
    }
}

fn between_quotes(e: &Vec<char>) -> (r: Option<String>)
    ensures
        opt_view(r) == (match first_occurrence_from(e@, seq!['\''], 0) {
            Some(s) => match first_occurrence_from(e@, seq!['\''], s + 1) {
                Some(t) => Some(e@.subrange(s + 1, t)),
                None => None,
            },
            None => None,
        }),
{
    let quote = chars_of("'");
    proof {
        reveal_strlit("'");
        assert(quote@ =~= seq!['\'']);
    }
    match find_from(e, &quote, 0) {
        Some(start) => {
            assert(occurs_at(e@, quote@, start as int));
            let n = e.len();
            assert(start + 1 <= n);
            match find_from(e, &quote, start + 1) {
                Some(end) => Some(string_of_range(e, start + 1, end)),
                None => None,
            }
        },
        None => None,
    }
}

/// Extracts the invalid command from an error message.
pub fn extract_invalid_command(error: &str) -> (r: Option<String>)
    ensures
        opt_view(r) == invalid_command_in(error@),
{
    let e = chars_of(error);
    match after_subcommand(&e) {
        Some(c) => Some(c),
        None => between_quotes(&e),
    }
}

/// The suggestions of an unknown-command error.
pub open spec fn try_lines(s: Seq<Seq<char>>) -> Seq<Seq<char>> {
    s.map_values(|c: Seq<char>| "Try 'uveddi "@ + c + "'"@)
}

/// The enhanced form of an error message `e`, chosen by what its lowercase
/// form mentions.
pub open spec fn enhanced_error(e: Seq<char>) -> CliErrorView {
    let l = lowercase(e);
    if (contains_seq(l, "no such subcommand"@) || contains_seq(l, "unrecognized subcommand"@))
        && invalid_command_in(l) is Some {
        let c = invalid_command_in(l)->0;
        CliErrorView {
            message: "Unknown command: '"@ + c + "'"@,
            context: Some("Uveddi supports analysis, configuration, and health checking commands"@),
            suggestions: try_lines(suggestions_for(c)),
            help_topic: Some("commands"@),
        }
    } else if contains_seq(l, "no such file"@) || contains_seq(l, "not found"@) {
        CliErrorView { message: "File or directory not found"@, context: Some("Check that the path exists and you have read permissions"@), suggestions: seq!["Use absolute paths if relative paths aren't working"@, "Run 'uveddi doctor' to check file permissions"@], help_topic: Some("troubleshooting"@) }
    } else if contains_seq(l, "permission denied"@) || contains_seq(l, "access denied"@) {
        CliErrorView { message: "Permission denied"@, context: Some("Insufficient permissions to access the requested resource"@), suggestions: seq!["Check file and directory permissions"@, "Run 'uveddi doctor --fix' to attempt automatic fixes"@, "Try running with appropriate permissions"@], help_topic: Some("troubleshooting"@) }
    } else if contains_seq(l, "config"@) || contains_seq(l, "configuration"@) {
        CliErrorView { message: "Configuration error"@, context: Some("There was a problem with the configuration settings"@), suggestions: seq!["Run 'uveddi config validate' to check configuration"@, "Use 'uveddi config reset' to restore default settings"@, "Check ~/.config/uveddi/ for configuration files"@], help_topic: Some("configuration"@) }
    } else if contains_seq(l, "ollama"@) || contains_seq(l, "ai"@) || contains_seq(l, "model"@) {
        CliErrorView { message: "AI service error"@, context: Some("Problem connecting to or using AI services"@), suggestions: seq!["Check if Ollama is running with 'ollama serve'"@, "Run 'uveddi doctor --ai' to diagnose AI issues"@, "Try running without --enable-ai to bypass AI features"@], help_topic: Some("ai-integration"@) }
    } else if contains_seq(l, "timeout"@) || contains_seq(l, "timed out"@) {
        CliErrorView { message: "Operation timed out"@, context: Some("The analysis took too long to complete"@), suggestions: seq!["Increase timeout with --timeout <seconds>"@, "Analyze a smaller subset of your codebase"@, "Use --progress-format terminal to monitor progress"@], help_topic: Some("performance"@) }
    } else if contains_seq(l, "memory"@) || contains_seq(l, "out of memory"@) {
        CliErrorView { message: "Memory limit exceeded"@, context: Some("The analysis required more memory than available"@), suggestions: seq!["Use --memory-limit-gb to increase memory limit"@, "Enable --memory-optimization for large codebases"@, "Analyze smaller sections of your codebase separately"@], help_topic: Some("performance"@) }
    } else {
        CliErrorView { message: e, context: Some("An unexpected error occurred"@), suggestions: seq!["Run with --verbose for more detailed error information"@, "Check 'uveddi doctor' for system health"@], help_topic: Some("troubleshooting"@) }
    }
}

fn try_suggestions(s: Vec<String>) -> (r: Vec<String>)
    ensures
        views(r@) == try_lines(views(s@)),
{
    let mut r: Vec<String> = Vec::new();
    let mut i: usize = 0;
    while i < s.len()
        invariant
            i <= s.len(),
            views(r@) == try_lines(views(s@.subrange(0, i as int))),
        decreases s.len() - i,
    {
        let mut line = owned("Try 'uveddi ");
        push_str(&mut line, s[i].as_str());
        push_str(&mut line, "'");
        let ghost prev = r@;
        r.push(line);
        proof {
            lemma_views_push(prev, line);
            lemma_views_prefix(s@, i as int);
            assert(try_lines(views(s@.subrange(0, i + 1))) =~= try_lines(views(s@.subrange(0, i as int))).push(line@));
        }
        i = i + 1;
    }
    assert(s@.subrange(0, s.len() as int) =~= s@);
    r
}

/// Turns a raw CLI error into an error with context, suggestions and a help
/// topic, by the kind of problem its text mentions.
pub fn enhance_cli_error(original_error: &str, command_context: Option<&str>) -> (r: CliError)
    ensures
        r@ == enhanced_error(original_error@),
{
    let lower_s = to_lowercase(original_error);
    let lower = chars_of(lower_s.as_str());
    if contains_chars(&lower, &chars_of("no such subcommand")) || contains_chars(&lower, &chars_of("unrecognized subcommand")) {
        match extract_invalid_command(lower_s.as_str()) {
            Some(invalid_cmd) => {
                let suggestions = suggest_command(invalid_cmd.as_str());
                let mut message = owned("Unknown command: '");
                push_str(&mut message, invalid_cmd.as_str());
                push_str(&mut message, "'");
                return CliError::new(message)
                    .with_context(owned("Uveddi supports analysis, configuration, and health checking commands"))
                    .with_suggestions(try_suggestions(suggestions))
                    .with_help_topic(owned("commands"));
            },
            None => {},
        }
    }
    if contains_chars(&lower, &chars_of("no such file")) || contains_chars(&lower, &chars_of("not found")) {
        return CliError::new(owned("File or directory not found"))
            .with_context(owned("Check that the path exists and you have read permissions"))
            .with_suggestion(owned("Use absolute paths if relative paths aren't working"))
            .with_suggestion(owned("Run 'uveddi doctor' to check file permissions"))
            .with_help_topic(owned("troubleshooting"));
    }
    if contains_chars(&lower, &chars_of("permission denied")) || contains_chars(&lower, &chars_of("access denied")) {
        return CliError::new(owned("Permission denied"))
            .with_context(owned("Insufficient permissions to access the requested resource"))
            .with_suggestion(owned("Check file and directory permissions"))
            .with_suggestion(owned("Run 'uveddi doctor --fix' to attempt automatic fixes"))
            .with_suggestion(owned("Try running with appropriate permissions"))
            .with_help_topic(owned("troubleshooting"));
    }
    if contains_chars(&lower, &chars_of("config")) || contains_chars(&lower, &chars_of("configuration")) {
        return CliError::new(owned("Configuration error"))
            .with_context(owned("There was a problem with the configuration settings"))
            .with_suggestion(owned("Run 'uveddi config validate' to check configuration"))
            .with_suggestion(owned("Use 'uveddi config reset' to restore default settings"))
            .with_suggestion(owned("Check ~/.config/uveddi/ for configuration files"))
            .with_help_topic(owned("configuration"));
    }
    if contains_chars(&lower, &chars_of("ollama")) || contains_chars(&lower, &chars_of("ai")) || contains_chars(&lower, &chars_of("model")) {
        return CliError::new(owned("AI service error"))
            .with_context(owned("Problem connecting to or using AI services"))
            .with_suggestion(owned("Check if Ollama is running with 'ollama serve'"))
            .with_suggestion(owned("Run 'uveddi doctor --ai' to diagnose AI issues"))
            .with_suggestion(owned("Try running without --enable-ai to bypass AI features"))
            .with_help_topic(owned("ai-integration"));
    }
    if contains_chars(&lower, &chars_of("timeout")) || contains_chars(&lower, &chars_of("timed out")) {
        return CliError::new(owned("Operation timed out"))
            .with_context(owned("The analysis took too long to complete"))
            .with_suggestion(owned("Increase timeout with --timeout <seconds>"))
            .with_suggestion(owned("Analyze a smaller subset of your codebase"))
            .with_suggestion(owned("Use --progress-format terminal to monitor progress"))
            .with_help_topic(owned("performance"));
    }
    if contains_chars(&lower, &chars_of("memory")) || contains_chars(&lower, &chars_of("out of memory")) {
        return CliError::new(owned("Memory limit exceeded"))
            .with_context(owned("The analysis required more memory than available"))
            .with_suggestion(owned("Use --memory-limit-gb to increase memory limit"))
            .with_suggestion(owned("Enable --memory-optimization for large codebases"))
            .with_suggestion(owned("Analyze smaller sections of your codebase separately"))
            .with_help_topic(owned("performance"));
    }
    CliError::new(owned(original_error))
            .with_context(owned("An unexpected error occurred"))
            .with_suggestion(owned("Run with --verbose for more detailed error information"))
            .with_suggestion(owned("Check 'uveddi doctor' for system health"))
            .with_help_topic(owned("troubleshooting"))
}

/// Help text for common use cases.
pub fn generate_quick_help() -> (s: String)
    ensures
        s@ == QUICK_HELP@,
{
    owned(QUICK_HELP)
}

/// The help text of a topic, if the topic has one.
pub open spec fn topic_help(topic: Seq<char>) -> Option<Seq<char>> {
    if topic == "installation"@ {
        Some(TOPIC_INSTALLATION@)
    } else if topic == "configuration"@ {
        Some(TOPIC_CONFIGURATION@)
    } else if topic == "troubleshooting"@ {
        Some(TOPIC_TROUBLESHOOTING@)
    } else if topic == "ci-cd"@ {
        Some(TOPIC_CI_CD@)
    } else if topic == "plugins"@ {
        Some(TOPIC_PLUGINS@)
    } else if topic == "examples"@ {
        Some(TOPIC_EXAMPLES@)
    } else if topic == "tutorials"@ {
        Some(TOPIC_TUTORIALS@)
    } else if topic == "workflows"@ {
        Some(TOPIC_WORKFLOWS@)
    } else if topic == "performance"@ {
        Some(TOPIC_PERFORMANCE@)
    } else if topic == "ai-integration"@ {
        Some(TOPIC_AI_INTEGRATION@)
    } else {
        None
    }
}

/// Help for a specific topic; `None` for a topic without a text.
pub fn generate_topic_help(topic: &str) -> (r: Option<String>)
    ensures
        opt_view(r) == topic_help(topic@),
{
    if str_eq(topic, "installation") {
        Some(owned(TOPIC_INSTALLATION))
    } else if str_eq(topic, "configuration") {
        Some(owned(TOPIC_CONFIGURATION))
    } else if str_eq(topic, "troubleshooting") {
        Some(owned(TOPIC_TROUBLESHOOTING))
    } else if str_eq(topic, "ci-cd") {
        Some(owned(TOPIC_CI_CD))
    } else if str_eq(topic, "plugins") {
        Some(owned(TOPIC_PLUGINS))
    } else if str_eq(topic, "examples") {
        Some(owned(TOPIC_EXAMPLES))
    } else if str_eq(topic, "tutorials") {
        Some(owned(TOPIC_TUTORIALS))
    } else if str_eq(topic, "workflows") {
        Some(owned(TOPIC_WORKFLOWS))
    } else if str_eq(topic, "performance") {
        Some(owned(TOPIC_PERFORMANCE))
    } else if str_eq(topic, "ai-integration") {
        Some(owned(TOPIC_AI_INTEGRATION))
    } else {
        None
    }
}

} // verus!
