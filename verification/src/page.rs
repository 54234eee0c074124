//! The fixed text of the dashboard page.
use vstd::prelude::*;

verus! {

/// The page up to the number of people.
pub const PAGE_HEAD: &'static str = r#"
<!DOCTYPE html>
<html>
<head>
    <title>🦀 Smart Door Lock - Rust + AWS</title>
    <meta charset="UTF-8">
    <meta name="viewport" content="width=device-width, initial-scale=1.0">
    <style>
        * { box-sizing: border-box; }
        body { 
            font-family: 'SF Pro Display', -apple-system, BlinkMacSystemFont, 'Segoe UI', Roboto, sans-serif;
            margin: 0; padding: 20px; background: linear-gradient(135deg, #667eea 0%, #764ba2 100%);
            min-height: 100vh; color: #333;
        }
        .container { max-width: 1200px; margin: 0 auto; }
        .card { 
            background: rgba(255, 255, 255, 0.95); backdrop-filter: blur(10px);
            padding: 25px; margin: 20px 0; border-radius: 16px; 
            box-shadow: 0 8px 32px rgba(0,0,0,0.1); border: 1px solid rgba(255,255,255,0.2);
        }
        .status { 
            padding: 20px; margin: 15px 0; border-radius: 12px; 
            border-left: 5px solid;
        }
        .success { 
            background: linear-gradient(135deg, #d4edda, #c3e6cb); 
            color: #155724; border-left-color: #28a745; 
        }
        .info { 
            background: linear-gradient(135deg, #d1ecf1, #bee5eb); 
            color: #0c5460; border-left-color: #17a2b8; 
        }
        .warning { 
            background: linear-gradient(135deg, #fff3cd, #ffeaa7); 
            color: #856404; border-left-color: #ffc107; 
        }
        button { 
            padding: 12px 24px; margin: 8px; border: none; border-radius: 8px; 
            cursor: pointer; font-weight: 600; font-size: 14px;
            transition: all 0.3s ease; text-transform: uppercase; letter-spacing: 0.5px;
        }
        .btn-primary { background: linear-gradient(135deg, #007bff, #0056b3); color: white; }
        .btn-success { background: linear-gradient(135deg, #28a745, #1e7e34); color: white; }
        .btn-warning { background: linear-gradient(135deg, #ffc107, #e0a800); color: #212529; }
        .btn-danger { background: linear-gradient(135deg, #dc3545, #c82333); color: white; }
        button:hover { transform: translateY(-2px); box-shadow: 0 8px 25px rgba(0,0,0,0.15); }
        input[type="file"], input[type="text"] { 
            margin: 10px 0; padding: 12px; border: 2px solid #ddd; 
            border-radius: 8px; width: 280px; font-size: 14px;
        }
        .stats { display: grid; grid-template-columns: repeat(auto-fit, minmax(200px, 1fr)); gap: 20px; }
        .stat { text-align: center; padding: 20px; }
        .stat-number { font-size: 3em; font-weight: 800; color: #007bff; margin-bottom: 5px; }
        .stat-label { font-size: 14px; color: #666; text-transform: uppercase; letter-spacing: 1px; }
        h1 { 
            color: white; text-align: center; margin-bottom: 30px; font-size: 2.5em; 
            text-shadow: 0 2px 4px rgba(0,0,0,0.3); font-weight: 700;
        }
        h3 { 
            color: #2c3e50; border-bottom: 3px solid #3498db; 
            padding-bottom: 10px; margin-bottom: 20px; font-size: 1.2em;
        }
        .log-entry { 
            padding: 12px; margin: 5px 0; border-radius: 8px;
            display: flex; justify-content: space-between; align-items: center;
            background: rgba(248, 249, 250, 0.8);
        }
        .access-granted { 
            background: linear-gradient(135deg, #d4edda, #c3e6cb) !important;
            border-left: 4px solid #28a745; color: #155724; font-weight: 600;
        }
        .access-denied { 
            background: linear-gradient(135deg, #f8d7da, #f1c2c7) !important;
            border-left: 4px solid #dc3545; color: #721c24; font-weight: 600;
        }
        .rust-badge {
            position: absolute; top: 20px; right: 20px; 
            background: linear-gradient(135deg, #ce422b, #a33622);
            color: white; padding: 8px 16px; border-radius: 20px;
            font-size: 12px; font-weight: 600; text-transform: uppercase;
        }
        .feature-grid { 
            display: grid; grid-template-columns: repeat(auto-fit, minmax(250px, 1fr)); 
            gap: 15px; margin: 20px 0; 
        }
        .feature { 
            padding: 15px; background: rgba(255,255,255,0.7); 
            border-radius: 10px; text-align: center; 
        }
    </style>
</head>
<body>
    <div class="rust-badge">⚡ Powered by Rust</div>
    <div class="container">
        <h1>🦀 Smart Door Lock</h1>
        
        <div class="status success">
            <h3>🎯 System Status</h3>
            <div class="stats">
                <div class="stat">
                    <div class="stat-number">"#;

/// The page between the number of people and the number of access attempts.
pub const PAGE_AFTER_PEOPLE: &'static str = r#"</div>
                    <div class="stat-label">Authorized People</div>
                </div>
                <div class="stat">
                    <div class="stat-number">"#;

/// The page between the number of access attempts and the log.
pub const PAGE_AFTER_ATTEMPTS: &'static str = r#"</div>
                    <div class="stat-label">Access Attempts</div>
                </div>
                <div class="stat">
                    <div class="stat-number">AWS</div>
                    <div class="stat-label">Rekognition</div>
                </div>
            </div>
        </div>
        
        <div class="feature-grid">
            <div class="feature">
                <h4>🚀 High Performance</h4>
                <p>Rust's zero-cost abstractions for maximum speed</p>
            </div>
            <div class="feature">
                <h4>🔒 Memory Safe</h4>
                <p>No buffer overflows or memory leaks</p>
            </div>
            <div class="feature">
                <h4>☁️ AWS Powered</h4>
                <p>Enterprise-grade face recognition</p>
            </div>
            <div class="feature">
                <h4>🔗 IoT Ready</h4>
                <p>ESP32-CAM + Pico 2 integration</p>
            </div>
        </div>
        
        <div class="card">
            <h3>➕ Add Authorized Person</h3>
            <input type="text" id="person-name" placeholder="Enter person name">
            <input type="file" id="face-photo" accept="image/*">
            <button class="btn-success" onclick="addPerson()">Add Person</button>
        </div>
        
        <div class="card">
            <h3>🔍 Access Control</h3>
            <button class="btn-primary" onclick="checkAccessESP32()">📸 Check Access (ESP32-CAM)</button>
            <input type="file" id="test-photo" accept="image/*" style="display: inline-block; width: 200px;">
            <button class="btn-warning" onclick="testAccessUpload()">🧪 Test Upload</button>
            <button class="btn-info" onclick="listPeople()">👥 List People</button>
        </div>
        
        <div class="card">
            <h3>📋 Recent Access Log</h3>
            <div id="log">
                "#;

/// The page from the end of the log.
pub const PAGE_TAIL: &'static str = r#"
            </div>
        </div>
        
        <div class="status info">
            <h3>🔗 Hardware Integration</h3>
            <p><strong>ESP32-CAM:</strong> Captures images automatically</p>
            <p><strong>Pico 2 (Rust):</strong> Controls door lock mechanism</p>
            <p><strong>Current Mode:</strong> Manual testing + Hardware ready</p>
        </div>
    </div>
    
    <script>
        async function addPerson() {
            const name = document.getElementById('person-name').value;
            const fileInput = document.getElementById('face-photo');
            
            if (!name || !fileInput.files[0]) {
                alert('Please enter name and select a photo');
                return;
            }
            
            const formData = new FormData();
            formData.append('name', name);
            formData.append('photo', fileInput.files[0]);
            
            try {
                const response = await fetch('/api/add-person', {
                    method: 'POST',
                    body: formData
                });
                
                const data = await response.json();
                
                if (data.success) {
                    alert('✅ ' + data.data.message);
                    location.reload();
                } else {
                    alert('❌ Error: ' + data.error);
                }
            } catch (error) {
                alert('❌ Network error: ' + error.message);
            }
        }
        
        async function checkAccessESP32() {
            try {
                const response = await fetch('/api/check-access-esp32', {
                    method: 'POST'
                });
                
                const data = await response.json();
                
                if (data.success) {
                    const result = data.data.access_granted ? '🟢 ACCESS GRANTED' : '🔴 ACCESS DENIED';
                    const person = data.data.person_name || 'Unknown';
                    const confidence = data.data.confidence ? Math.round(data.data.confidence * 100) + '%' : 'N/A';
                    
                    alert(`${result}\\n\\nPerson: ${person}\\nConfidence: ${confidence}`);
                    location.reload();
                } else {
                    alert('❌ Error: ' + data.error);
                }
            } catch (error) {
                alert('❌ Network error: ' + error.message);
            }
        }
        
        async function testAccessUpload() {
            const fileInput = document.getElementById('test-photo');
            
            if (!fileInput.files[0]) {
                alert('Please select a photo to test');
                return;
            }
            
            const formData = new FormData();
            formData.append('photo', fileInput.files[0]);
            
            try {
                const response = await fetch('/api/check-access', {
                    method: 'POST',
                    body: formData
                });
                
                const data = await response.json();
                
                if (data.success) {
                    const result = data.data.access_granted ? '🟢 ACCESS GRANTED' : '🔴 ACCESS DENIED';
                    const person = data.data.person_name || 'Unknown';
                    const confidence = data.data.confidence ? Math.round(data.data.confidence * 100) + '%' : 'N/A';
                    
                    alert(`${result}\\n\\nPerson: ${person}\\nConfidence: ${confidence}`);
                    location.reload();
                } else {
                    alert('❌ Error: ' + data.error);
                }
            } catch (error) {
                alert('❌ Network error: ' + error.message);
            }
        }
        
        async function listPeople() {
            try {
                const response = await fetch('/api/list-people');
                const data = await response.json();
                
                if (data.success && data.data.length > 0) {
                    const people = data.data.join('\\n• ');
                    alert(`👥 Authorized People (${data.data.length})::\\n\\n• ${people}`);
                } else {
                    alert('👥 No authorized people found\\n\\nAdd someone using the form above!');
                }
            } catch (error) {
                alert('❌ Network error: ' + error.message);
            }
        }
    </script>
</body>
</html>
    "#;

/// An entry of the log up to its class.
pub const ITEM_HEAD: &'static str = r#"<div class="log-entry "#;

/// An entry between its class and its moment.
pub const ITEM_AFTER_CLASS: &'static str = r#"">
                    <span><strong>"#;

/// An entry between its moment and its action.
pub const ITEM_AFTER_TIME: &'static str = r#"</strong> - "#;

/// An entry between its action and its confidence.
pub const ITEM_AFTER_ACTION: &'static str = r#"</span>
                    <span>"#;

/// An entry from the end of its confidence.
pub const ITEM_TAIL: &'static str = r#"</span>
                </div>"#;

} // verus!
